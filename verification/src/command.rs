//! Key legends shown beside the panel's four page keys, and the effects that
//! a key press asks the embedding program to carry out.

use vstd::prelude::*;

verus! {

/// The legend of one page key: a short label and whether it is drawn
/// highlighted.
#[derive(Clone, Copy, Debug, PartialEq, Eq)]
pub struct Command {
    pub name: &'static str,
    pub selected: bool,
}

impl Command {
    /// A plain legend.
    pub fn new(name: &'static str) -> (cmd: Self)
        ensures
            cmd == (Command { name, selected: false }),
    {
        Self { name, selected: false }
    }

    /// A highlighted legend.
    pub fn selected(name: &'static str) -> (cmd: Self)
        ensures
            cmd == (Command { name, selected: true }),
    {
        Self { name, selected: true }
    }

    /// The legend of a key that does nothing on the current page.
    pub fn empty() -> (cmd: Self)
        ensures
            cmd == (Command { name: "   ", selected: false }),
    {
        Self { name: "   ", selected: false }
    }
}

/// What a key press asks of the command executor. The state machine only
/// decides; launching is left to the caller.
#[derive(Clone, Debug, PartialEq, Eq)]
pub enum Action {
    /// Nothing to do.
    Nothing,
    /// Launch a detached program with these arguments.
    Run(Vec<String>),
    /// Open this URL with the desktop's default handler.
    OpenUrl(String),
}

/// An [`Action`] with its texts as character sequences.
pub enum ActionView {
    Nothing,
    Run(Seq<Seq<char>>),
    OpenUrl(Seq<char>),
}

/// The character sequences of a list of strings.
pub open spec fn texts(v: Seq<String>) -> Seq<Seq<char>> {
    v.map_values(|s: String| s@)
}

impl View for Action {
    type V = ActionView;

    open spec fn view(&self) -> ActionView {
        match self {
            Action::Nothing => ActionView::Nothing,
            Action::Run(argv) => ActionView::Run(texts(argv@)),
            Action::OpenUrl(url) => ActionView::OpenUrl(url@),
        }
    }
}

impl Action {
    /// The request to launch `program` with the single argument `arg`.
    pub fn run_with(program: &str, arg: &str) -> (action: Action)
        ensures
            action@ == ActionView::Run(seq![program@, arg@]),
    {
        let mut argv: Vec<String> = Vec::new();
        argv.push(program.to_owned());
        argv.push(arg.to_owned());
        assert(texts(argv@) =~= seq![program@, arg@]);
        Action::Run(argv)
    }

    /// The request to launch `program` without arguments.
    pub fn run_alone(program: &str) -> (action: Action)
        ensures
            action@ == ActionView::Run(seq![program@]),
    {
        let mut argv: Vec<String> = Vec::new();
        argv.push(program.to_owned());
        assert(texts(argv@) =~= seq![program@]);
        Action::Run(argv)
    }

    /// The request to open `url`.
    pub fn open(url: &str) -> (action: Action)
        ensures
            action@ == ActionView::OpenUrl(url@),
    {
        Action::OpenUrl(url.to_owned())
    }
}

} // verus!
