use status_console::command::{Action, Command};
use status_console::home::HomeState;
use status_console::keyboard::Key;
use status_console::pull_requests::{Page, PullRequestsState};
use status_console::shortcuts::shortcut;
use status_console::state::{AppState, CalendarEvent, GitHubNotification, PageState, PullRequest};

fn notification(n: usize) -> GitHubNotification {
    GitHubNotification {
        title: format!("title {}", n),
        action: "comment".to_string(),
        repository: "repo".to_string(),
        time: 1_641_835_800 + n as i64,
        url: format!("https://github.com/owner/repo/pull/{}", n),
    }
}

fn pull(name: &str, n: usize) -> PullRequest {
    PullRequest {
        title: format!("{} {}", name, n),
        url: format!("https://github.com/owner/{}/pull/{}", name, n),
        updated_at: 1_641_835_800,
        repo_name: name.to_string(),
    }
}

fn state_with(notifications: usize) -> AppState {
    let mut state = AppState::new(" Jan 10   9:30am ".to_string());
    state.notifications = (0..notifications).map(notification).collect();
    state.open_prs = (0..3).map(|n| pull("open", n)).collect();
    state.closed_prs = (0..8).map(|n| pull("closed", n)).collect();
    state
}

fn joinable() -> CalendarEvent {
    CalendarEvent {
        title: "Standup".to_string(),
        time: " 9:30am - 10:00am".to_string(),
        start: 1_641_835_800,
        zoom_url: Some("zoomus://zoom.us/join?action=join&confno=1&pwd=x".to_string()),
    }
}

fn home(slider: usize, selected: usize, scroll: usize) -> PageState {
    PageState::Home(HomeState { slider, selected, scroll })
}

fn prs(page: Page, selected: usize, scroll: usize, slider: usize) -> PageState {
    PageState::PullRequests(PullRequestsState { page, selected, scroll, slider })
}

#[test]
fn the_console_starts_on_an_empty_home_page() {
    let state = AppState::new("clock".to_string());
    assert_eq!(state.page, home(0, 0, 0));
    assert_eq!(state.clock, "clock");
    assert_eq!(state.calendar, None);
    assert!(state.notifications.is_empty());
    assert!(state.open_prs.is_empty());
    assert!(state.closed_prs.is_empty());
}

#[test]
fn page_constructors_give_fresh_sub_state() {
    assert_eq!(PageState::home(), home(0, 0, 0));
    assert_eq!(PageState::shortcuts(), PageState::Shortcuts { selected: None });
    assert_eq!(PageState::pull_requests(), prs(Page::InProgress, 0, 0, 0));
    assert_eq!(
        PullRequestsState::default(),
        PullRequestsState { page: Page::InProgress, selected: 0, scroll: 0, slider: 0 }
    );
    assert_eq!(HomeState::default(), HomeState { slider: 0, selected: 0, scroll: 0 });
}

#[test]
fn command_builders() {
    assert_eq!(Command::new("PRS"), Command { name: "PRS", selected: false });
    assert_eq!(Command::selected("JOIN"), Command { name: "JOIN", selected: true });
    assert_eq!(Command::empty(), Command { name: "   ", selected: false });
}

#[test]
fn action_builders() {
    assert_eq!(
        Action::run_with("xdg-open", "zoomus://x"),
        Action::Run(vec!["xdg-open".to_string(), "zoomus://x".to_string()])
    );
    assert_eq!(Action::run_alone("slack"), Action::Run(vec!["slack".to_string()]));
    assert_eq!(Action::open("https://a"), Action::OpenUrl("https://a".to_string()));
}

#[test]
fn home_page_keys_switch_pages() {
    let mut state = state_with(3);
    assert_eq!(state.handle_kbd_home(Key::LCD2), Action::Nothing);
    assert_eq!(state.page, prs(Page::InProgress, 0, 0, 0));

    let mut state = state_with(3);
    assert_eq!(state.handle_kbd_home(Key::LCD4), Action::Nothing);
    assert_eq!(state.page, PageState::Shortcuts { selected: None });

    let mut state = state_with(3);
    let before = state.clone();
    for key in [Key::LCD3, Key::Abort, Key::Danger] {
        assert_eq!(state.handle_kbd_home(key), Action::Nothing);
        assert_eq!(state, before);
    }
}

#[test]
fn home_join_and_execute_launch_the_quick_join_url() {
    let mut state = state_with(3);
    state.calendar = Some(joinable());
    let before = state.clone();
    let expected = Action::Run(vec![
        "xdg-open".to_string(),
        "zoomus://zoom.us/join?action=join&confno=1&pwd=x".to_string(),
    ]);
    assert_eq!(state.handle_kbd_home(Key::LCD1), expected);
    assert_eq!(state.handle_kbd_home(Key::Execute), expected);
    assert_eq!(state, before);
}

#[test]
fn home_join_and_execute_do_nothing_without_a_quick_join_url() {
    let mut state = state_with(3);
    assert_eq!(state.handle_kbd_home(Key::LCD1), Action::Nothing);
    assert_eq!(state.handle_kbd_home(Key::Execute), Action::Nothing);
    let mut event = joinable();
    event.zoom_url = None;
    state.calendar = Some(event);
    assert_eq!(state.handle_kbd_home(Key::LCD1), Action::Nothing);
    assert_eq!(state.handle_kbd_home(Key::Execute), Action::Nothing);
}

#[test]
fn home_slider_moves_over_the_notifications() {
    let mut state = state_with(8);
    assert_eq!(state.handle_kbd_home(Key::Slider(3)), Action::Nothing);
    assert_eq!(state.page, home(2, 2, 0));
    state.handle_kbd_home(Key::Slider(0));
    assert_eq!(state.page, home(5, 5, 0));
    state.page = home(5, 5, 3);
    state.handle_kbd_home(Key::Slider(0));
    assert_eq!(state.page, home(5, 6, 4));
    state.handle_kbd_home(Key::Slider(5));
    assert_eq!(state.page, home(0, 6, 3));
    assert_eq!(state.notifications.len(), 8);
}

#[test]
fn home_legends_follow_the_calendar() {
    let mut state = state_with(0);
    assert_eq!(
        state.commands_home(),
        vec![Command::empty(), Command::new("PRS"), Command::new("CAL"), Command::new("SHCT")]
    );
    state.calendar = Some(joinable());
    assert_eq!(
        state.commands(),
        vec![
            Command::selected("JOIN"),
            Command::new("PRS"),
            Command::new("CAL"),
            Command::new("SHCT")
        ]
    );
}

#[test]
fn slider_released_at_the_top_lets_the_heartbeat_scroll_back() {
    let mut state = state_with(12);
    state.handle_key(Key::Slider(0));
    assert_eq!(state.page, home(5, 5, 0));
    for _ in 0..4 {
        state.heartbeat();
    }
    assert_eq!(state.page, home(5, 5, 4));
    for position in 1..=5usize {
        state.handle_key(Key::Slider(position));
    }
    assert_eq!(state.page, home(0, 1, 3));
    let mut scrolls = Vec::new();
    for _ in 0..5 {
        state.heartbeat();
        match state.page {
            PageState::Home(hs) => scrolls.push(hs.scroll),
            _ => panic!("left the Home page"),
        }
    }
    assert_eq!(scrolls, vec![2, 1, 0, 0, 0]);
    assert_eq!(state.page, home(0, 0, 0));
}

#[test]
fn pull_request_page_keys_choose_the_sub_page() {
    let mut state = state_with(0);
    state.page = prs(Page::InProgress, 2, 1, 2);
    assert_eq!(state.handle_kbd_pull_requests(Key::LCD2), Action::Nothing);
    assert_eq!(state.page, prs(Page::Submitted, 2, 1, 2));
    assert_eq!(state.get_pulls().len(), 8);
    state.handle_kbd_pull_requests(Key::LCD3);
    assert_eq!(state.page, prs(Page::Review, 2, 1, 2));
    assert!(state.get_pulls().is_empty());
    state.handle_kbd_pull_requests(Key::LCD1);
    assert_eq!(state.page, prs(Page::InProgress, 2, 1, 2));
    assert_eq!(state.get_pulls().len(), 3);
    assert_eq!(state.get_pulls()[0].title, "open 0");
    state.handle_kbd_pull_requests(Key::LCD4);
    state.handle_kbd_pull_requests(Key::Danger);
    assert_eq!(state.page, prs(Page::InProgress, 2, 1, 2));
}

#[test]
fn pull_request_abort_returns_to_a_fresh_home_page() {
    let mut state = state_with(0);
    state.page = prs(Page::Submitted, 4, 2, 4);
    assert_eq!(state.handle_kbd_pull_requests(Key::Abort), Action::Nothing);
    assert_eq!(state.page, home(0, 0, 0));
}

#[test]
fn pull_request_execute_opens_the_item_under_the_selection() {
    let mut state = state_with(0);
    state.page = prs(Page::Submitted, 4, 2, 4);
    assert_eq!(
        state.handle_kbd_pull_requests(Key::Execute),
        Action::OpenUrl("https://github.com/owner/closed/pull/6".to_string())
    );
    state.page = prs(Page::Submitted, 4, 4, 4);
    assert_eq!(state.handle_kbd_pull_requests(Key::Execute), Action::Nothing);
    state.page = prs(Page::Submitted, 4, usize::MAX, 4);
    assert_eq!(state.handle_kbd_pull_requests(Key::Execute), Action::Nothing);
    state.page = prs(Page::Review, 0, 0, 0);
    assert_eq!(state.handle_kbd_pull_requests(Key::Execute), Action::Nothing);
    state.page = prs(Page::InProgress, 0, 0, 0);
    assert_eq!(
        state.handle_kbd_pull_requests(Key::Execute),
        Action::OpenUrl("https://github.com/owner/open/pull/0".to_string())
    );
}

#[test]
fn pull_request_slider_uses_the_list_of_the_current_sub_page() {
    let mut state = state_with(0);
    state.page = prs(Page::Submitted, 0, 3, 0);
    state.handle_kbd_pull_requests(Key::Slider(0));
    assert_eq!(state.page, prs(Page::Submitted, 6, 4, 5));
    state.page = prs(Page::InProgress, 0, 3, 0);
    state.handle_kbd_pull_requests(Key::Slider(0));
    assert_eq!(state.page, prs(Page::InProgress, 5, 4, 5));
    state.handle_kbd_pull_requests(Key::Slider(1));
    assert_eq!(state.page, prs(Page::InProgress, 4, 4, 4));
    state.heartbeat_pulls();
    assert_eq!(state.page, prs(Page::InProgress, 4, 4, 4));
    state.handle_kbd_pull_requests(Key::Slider(5));
    assert_eq!(state.page, prs(Page::InProgress, 4, 3, 0));
    state.heartbeat_pulls();
    assert_eq!(state.page, prs(Page::InProgress, 4, 2, 0));
}

#[test]
fn pull_request_legends_highlight_the_sub_page() {
    let mut state = state_with(0);
    state.page = prs(Page::Submitted, 0, 0, 0);
    assert_eq!(
        state.commands_prs(),
        vec![
            Command { name: "IPR", selected: false },
            Command { name: "SUB", selected: true },
            Command { name: "REV", selected: false },
            Command::empty()
        ]
    );
    state.page = prs(Page::InProgress, 0, 0, 0);
    assert_eq!(state.commands()[0], Command { name: "IPR", selected: true });
    state.page = prs(Page::Review, 0, 0, 0);
    assert_eq!(state.commands()[2], Command { name: "REV", selected: true });
}

#[test]
fn shortcut_grid() {
    assert_eq!(shortcut(0, 0), Some("guvcview"));
    assert_eq!(shortcut(0, 1), Some("zoom"));
    assert_eq!(shortcut(0, 2), Some("screenshot"));
    assert_eq!(shortcut(1, 0), Some("slack"));
    assert_eq!(shortcut(1, 1), Some("something"));
    assert_eq!(shortcut(1, 2), Some("shutdown"));
    assert_eq!(shortcut(2, 0), None);
    assert_eq!(shortcut(0, 3), None);
}

#[test]
fn shortcuts_take_two_presses() {
    let mut state = state_with(0);
    state.page = PageState::shortcuts();
    assert_eq!(state.handle_kbd_shortcuts(Key::LCD1), Action::Nothing);
    assert_eq!(state.page, PageState::Shortcuts { selected: Some(0) });
    assert_eq!(
        state.handle_kbd_shortcuts(Key::LCD3),
        Action::Run(vec!["screenshot".to_string()])
    );
    assert_eq!(state.page, PageState::Shortcuts { selected: None });

    assert_eq!(state.handle_kbd_shortcuts(Key::LCD2), Action::Nothing);
    assert_eq!(state.page, PageState::Shortcuts { selected: Some(1) });
    assert_eq!(state.handle_kbd_shortcuts(Key::LCD1), Action::Run(vec!["slack".to_string()]));
    assert_eq!(state.page, PageState::Shortcuts { selected: None });
}

#[test]
fn shortcuts_third_group_is_empty() {
    let mut state = state_with(0);
    state.page = PageState::shortcuts();
    state.handle_kbd_shortcuts(Key::LCD3);
    assert_eq!(state.page, PageState::Shortcuts { selected: Some(2) });
    assert_eq!(state.handle_kbd_shortcuts(Key::LCD1), Action::Nothing);
    assert_eq!(state.page, PageState::Shortcuts { selected: None });
}

#[test]
fn shortcuts_abort_cancels_a_selection_before_leaving() {
    let mut state = state_with(0);
    state.page = PageState::Shortcuts { selected: Some(1) };
    assert_eq!(state.handle_kbd_shortcuts(Key::Abort), Action::Nothing);
    assert_eq!(state.page, PageState::Shortcuts { selected: None });
    assert_eq!(state.handle_kbd_shortcuts(Key::Abort), Action::Nothing);
    assert_eq!(state.page, home(0, 0, 0));
}

#[test]
fn shortcuts_fourth_key_goes_home_and_other_keys_are_ignored() {
    let mut state = state_with(0);
    state.page = PageState::Shortcuts { selected: Some(1) };
    for key in [Key::Execute, Key::Danger, Key::Slider(2)] {
        assert_eq!(state.handle_kbd_shortcuts(key), Action::Nothing);
        assert_eq!(state.page, PageState::Shortcuts { selected: Some(1) });
    }
    assert_eq!(state.handle_kbd_shortcuts(Key::LCD4), Action::Nothing);
    assert_eq!(state.page, home(0, 0, 0));
    state.page = PageState::shortcuts();
    assert_eq!(state.commands(), vec![Command::empty(); 4]);
    assert_eq!(state.commands_shortcuts(), vec![Command::empty(); 4]);
}

#[test]
fn keys_and_ticks_that_would_overflow_are_refused() {
    let mut state = state_with(3);
    assert!(state.accepts_key(Key::Slider(0)));
    assert!(state.accepts_key(Key::Slider(5)));
    assert!(!state.accepts_key(Key::Slider(6)));
    assert!(state.can_tick());
    state.page = home(5, 5, usize::MAX);
    assert!(!state.accepts_key(Key::Slider(0)));
    assert!(state.accepts_key(Key::Slider(1)));
    assert!(state.accepts_key(Key::Execute));
    assert!(!state.can_tick());
    state.page = home(0, 5, usize::MAX);
    assert!(state.can_tick());
    state.page = prs(Page::Review, 5, usize::MAX, 5);
    assert!(!state.accepts_key(Key::Slider(0)));
    assert!(!state.can_tick());
    state.page = PageState::Shortcuts { selected: None };
    assert!(state.accepts_key(Key::Slider(9)));
    assert!(state.can_tick());
    assert!(Key::Slider(5).is_valid());
    assert!(!Key::Slider(6).is_valid());
    assert!(Key::Danger.is_valid());
}

#[test]
fn keys_and_ticks_are_dispatched_by_page() {
    let mut state = state_with(8);
    state.handle_key(Key::LCD4);
    assert_eq!(state.page, PageState::Shortcuts { selected: None });
    let before = state.clone();
    state.heartbeat();
    assert_eq!(state, before);
    state.handle_key(Key::LCD4);
    state.handle_key(Key::LCD2);
    assert_eq!(state.page, prs(Page::InProgress, 0, 0, 0));
    state.handle_key(Key::Slider(0));
    assert_eq!(state.page, prs(Page::InProgress, 5, 1, 5));
    state.tick("later".to_string());
    assert_eq!(state.page, prs(Page::InProgress, 5, 2, 5));
    assert_eq!(state.clock, "later");
    assert_eq!(state.notifications.len(), 8);
}
