//! The list position that the slider and the heartbeat move: a coarse slider
//! level, a selection inside the visible window and a scroll offset.
//!
//! The slider's raw position runs from `0` (top of travel) to `5`; the level
//! is `5 - position`. Levels 1 to 4 jump the selection; the two extremes
//! scroll, once per slider event and once per heartbeat tick while the
//! slider rests there.

use vstd::prelude::*;

verus! {

/// The highest slider level, and the highest raw position.
pub const TOP_LEVEL: usize = 5;

/// Position in a scrolled list of items.
#[derive(Clone, Copy, Debug, PartialEq, Eq, Structural)]
pub struct ListPosition {
    /// Slider level, `0..=5`.
    pub slider: usize,
    /// Selected row, counted from the first visible item.
    pub selected: usize,
    /// Number of items scrolled past.
    pub scroll: usize,
}

/// Whether the window that starts at `scroll` reaches to within five items
/// of the end of a list of `len` items.
pub open spec fn near_end(scroll: int, len: int) -> bool {
    scroll >= len - 5
}

/// The position after the slider has been moved to raw position `pos` over
/// a list of `len` items.
pub open spec fn after_slide(p: ListPosition, pos: usize, len: usize) -> ListPosition {
    let level = (5 - pos) as usize;
    if level == 0 {
        if p.scroll > 0 {
            ListPosition { slider: level, selected: p.selected, scroll: (p.scroll - 1) as usize }
        } else {
            ListPosition { slider: level, selected: 0, scroll: p.scroll }
        }
    } else if level < 5 {
        ListPosition { slider: level, selected: level, scroll: p.scroll }
    } else if near_end(p.scroll as int, len as int) {
        ListPosition {
            slider: level,
            selected: if 5 < len { 6 } else { 5 },
            scroll: (p.scroll + 1) as usize,
        }
    } else {
        ListPosition { slider: level, selected: 5, scroll: p.scroll }
    }
}

/// The position after one heartbeat tick.
pub open spec fn after_beat(p: ListPosition) -> ListPosition {
    if p.slider == 0 {
        if p.scroll > 0 {
            ListPosition { scroll: (p.scroll - 1) as usize, ..p }
        } else if p.selected > 0 {
            ListPosition { selected: (p.selected - 1) as usize, ..p }
        } else {
            p
        }
    } else if p.slider == 5 {
        ListPosition { scroll: (p.scroll + 1) as usize, ..p }
    } else {
        p
    }
}

/// The position after `n` heartbeat ticks in a row.
pub open spec fn after_beats(p: ListPosition, n: nat) -> ListPosition
    decreases n,
{
    if n == 0 {
        p
    } else {
        after_beats(after_beat(p), (n - 1) as nat)
    }
}

impl ListPosition {
    /// The slider level is one the control can report, and the selection is
    /// one that slider events and ticks can produce.
    pub open spec fn wf(self) -> bool {
        self.slider <= 5 && self.selected <= 6
    }

    /// A slider event at raw position `pos` does not push the scroll offset
    /// past what `usize` holds.
    pub open spec fn can_slide(self, pos: usize) -> bool {
        pos <= 5 && (pos == 0 ==> self.scroll < usize::MAX)
    }

    /// A heartbeat tick does not push the scroll offset past what `usize`
    /// holds.
    pub open spec fn can_beat(self) -> bool {
        self.slider == 5 ==> self.scroll < usize::MAX
    }

    /// Index into the list of the selected item.
    pub open spec fn target(self) -> int {
        self.selected + self.scroll
    }

    /// Whether a slider event at raw position `pos` can be applied.
    pub fn slides(&self, pos: usize) -> (ok: bool)
        ensures
            ok == self.can_slide(pos),
    {
        pos <= TOP_LEVEL && (pos != 0 || self.scroll < usize::MAX)
    }

    /// Whether a heartbeat tick can be applied.
    pub fn beats(&self) -> (ok: bool)
        ensures
            ok == self.can_beat(),
    {
        self.slider != TOP_LEVEL || self.scroll < usize::MAX
    }

    /// The position a page starts with: level 0, nothing scrolled, first row.
    pub fn start() -> (p: Self)
        ensures
            p == (ListPosition { slider: 0, selected: 0, scroll: 0 }),
            p.wf(),
    {
        ListPosition { slider: 0, selected: 0, scroll: 0 }
    }

    /// Moves the slider to raw position `pos` over a list of `len` items.
    ///
    /// Levels 1 to 4 select row `level`. Level 0 scrolls up by one, or
    /// selects row 0 when nothing is scrolled. Level 5 selects row 5 and,
    /// when the window is within five items of the list's end, scrolls down
    /// by one and selects row 6 if the list has more than five items.
    pub fn slide(self, pos: usize, len: usize) -> (p: Self)
        requires
            self.can_slide(pos),
        ensures
            p == after_slide(self, pos, len),
            p.slider == 5 - pos,
            self.wf() ==> p.wf(),
            1 <= p.slider <= 4 ==> p.selected == p.slider && p.scroll == self.scroll,
            p.slider == 0 && self.scroll == 0 ==> p.selected == 0 && p.scroll == 0,
            p.slider == 0 && self.scroll > 0 ==> p.selected == self.selected && p.scroll
                == self.scroll - 1,
            p.slider == 5 && self.scroll >= len - 5 ==> p.scroll == self.scroll + 1 && p.selected
                == (if 5 < len { 6int } else { 5int }),
            p.slider == 5 && self.scroll < len - 5 ==> p.scroll == self.scroll && p.selected == 5,
    {
        let level: usize = TOP_LEVEL - pos;
        let mut selected: usize = self.selected;
        let mut scroll: usize = self.scroll;
        if level == 0 {
            if scroll > 0 {
                scroll -= 1;
            } else {
                selected = 0;
            }
        } else if level < TOP_LEVEL {
            selected = level;
        } else {
            selected = TOP_LEVEL;
            let close: bool = len <= scroll || len - scroll <= TOP_LEVEL;
            if close && selected < len {
                selected += 1;
            }
            if close {
                scroll += 1;
            }
        }
        ListPosition { slider: level, selected, scroll }
    }

    /// Advances the idle animation by one tick.
    ///
    /// At level 0 the list scrolls up by one, and once nothing is scrolled
    /// the selection moves up by one until it reaches row 0. At level 5 the
    /// list scrolls down by one. At every other level a tick changes
    /// nothing.
    pub fn beat(self) -> (p: Self)
        requires
            self.can_beat(),
        ensures
            p == after_beat(self),
            p.slider == self.slider,
            self.wf() ==> p.wf(),
            1 <= self.slider <= 4 ==> p == self,
            self.slider == 0 ==> p.scroll <= self.scroll && p.selected <= self.selected,
            self.slider == 0 && self.scroll > 0 ==> p.scroll == self.scroll - 1,
    {
        let mut selected: usize = self.selected;
        let mut scroll: usize = self.scroll;
        if self.slider == 0 {
            if scroll > 0 {
                scroll -= 1;
            } else if selected > 0 {
                selected -= 1;
            }
        } else if self.slider == TOP_LEVEL {
            scroll += 1;
        }
        ListPosition { slider: self.slider, selected, scroll }
    }
}

/// At level 0, `n` heartbeat ticks with no input in between bring the scroll
/// offset down by `n`, stopping at 0; the level stays 0 throughout.
pub proof fn lemma_beats_drain_scroll(p: ListPosition, n: nat)
    requires
        p.slider == 0,
    ensures
        after_beats(p, n).slider == 0,
        after_beats(p, n).scroll == (if n <= p.scroll { p.scroll - n } else { 0 }),
        after_beats(p, n).scroll <= p.scroll,
        n >= p.scroll ==> after_beats(p, n).scroll == 0,
    decreases n,
{
    if n > 0 {
        lemma_beats_drain_scroll(after_beat(p), (n - 1) as nat);
    }
}

/// Between the extremes a tick is a strict no-op, however many arrive.
pub proof fn lemma_beats_idle_between_extremes(p: ListPosition, n: nat)
    requires
        1 <= p.slider <= 4,
    ensures
        after_beats(p, n) == p,
    decreases n,
{
    if n > 0 {
        lemma_beats_idle_between_extremes(after_beat(p), (n - 1) as nat);
    }
}

} // verus!
