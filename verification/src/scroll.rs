//! Follow/scroll state machine for the output view.
//!
//! The view is either following the newest output (`follow == true`, offset
//! treated as zero) or scrolled back by `offset` lines from the bottom.

use vstd::prelude::*;

verus! {

/// A discrete key event dispatched to the scroll state machine.
#[derive(Clone, Copy, Debug, PartialEq, Eq, Structural)]
pub enum ScrollEvent {
    /// Toggle follow mode; entering follow resets the offset.
    ToggleFollow,
    /// Scroll up by one line.
    LineUp,
    /// Scroll down by one line; reaching the bottom re-enables follow.
    LineDown,
    /// Scroll up by one page.
    PageUp,
    /// Scroll down by one page; reaching the bottom re-enables follow.
    PageDown,
    /// Jump to the maximum scroll-back position.
    Home,
    /// Jump back to the newest output and follow it.
    End,
    /// Same effect as `End`.
    Escape,
}

/// Follow flag and scroll-back offset of the output view.
#[derive(Clone, Copy, Debug, PartialEq, Eq, Structural)]
pub struct ScrollState {
    /// True while the view tracks the newest output.
    pub follow: bool,
    /// Lines scrolled up from the bottom; meaningful only when not following.
    pub offset: usize,
}

impl ScrollState {
    /// While following, the offset is pinned to zero.
    pub open spec fn wf(self) -> bool {
        self.follow ==> self.offset == 0
    }

    /// The state after one key event, given the page size and the maximum
    /// scroll-back for jumps to the top.
    pub open spec fn step_spec(self, ev: ScrollEvent, page: usize, max_scroll: usize) -> ScrollState {
        match ev {
            ScrollEvent::ToggleFollow => if self.follow {
                ScrollState { follow: false, offset: self.offset }
            } else {
                ScrollState { follow: true, offset: 0 }
            },
            ScrollEvent::LineUp => ScrollState {
                follow: false,
                offset: sat_add_usize(self.offset, 1),
            },
            ScrollEvent::LineDown => step_down_spec(self, 1),
            ScrollEvent::PageUp => ScrollState {
                follow: false,
                offset: sat_add_usize(self.offset, page),
            },
            ScrollEvent::PageDown => step_down_spec(self, page),
            ScrollEvent::Home => ScrollState { follow: false, offset: max_scroll },
            ScrollEvent::End => ScrollState { follow: true, offset: 0 },
            ScrollEvent::Escape => ScrollState { follow: true, offset: 0 },
        }
    }

    /// The initial state: following the newest output.
    pub fn new() -> (s: ScrollState)
        ensures
            s == (ScrollState { follow: true, offset: 0 }),
    {
        ScrollState { follow: true, offset: 0 }
    }

    /// Apply one key event.  `page` is the page size for page moves and
    /// `max_scroll` the maximum scroll-back used by `Home`.
    pub fn apply(&mut self, ev: ScrollEvent, page: usize, max_scroll: usize)
        ensures
            *final(self) == old(self).step_spec(ev, page, max_scroll),
            old(self).wf() ==> final(self).wf(),
    {
        match ev {
            ScrollEvent::ToggleFollow => {
                if self.follow {
                    self.follow = false;
                } else {
                    self.follow = true;
                    self.offset = 0;
                }
            },
            ScrollEvent::LineUp => {
                if self.follow {
                    self.follow = false;
                }
                self.offset = self.offset.saturating_add(1);
            },
            ScrollEvent::LineDown => {
                self.offset = self.offset.saturating_sub(1);
                if self.offset == 0 {
                    self.follow = true;
                }
            },
            ScrollEvent::PageUp => {
                if self.follow {
                    self.follow = false;
                }
                self.offset = self.offset.saturating_add(page);
            },
            ScrollEvent::PageDown => {
                self.offset = self.offset.saturating_sub(page);
                if self.offset == 0 {
                    self.follow = true;
                }
            },
            ScrollEvent::Home => {
                self.follow = false;
                self.offset = max_scroll;
            },
            ScrollEvent::End => {
                self.follow = true;
                self.offset = 0;
            },
            ScrollEvent::Escape => {
                self.follow = true;
                self.offset = 0;
            },
        }
    }
}

/// Saturating add on usize, at the spec level.
pub open spec fn sat_add_usize(a: usize, b: usize) -> usize {
    if a + b <= usize::MAX {
        (a + b) as usize
    } else {
        usize::MAX
    }
}

/// Moving down by `n` lines: the offset shrinks, and hitting the bottom
/// re-enables follow mode; otherwise the follow flag is left as it was.
pub open spec fn step_down_spec(s: ScrollState, n: usize) -> ScrollState {
    let next = if s.offset >= n { (s.offset - n) as usize } else { 0usize };
    if next == 0 {
        ScrollState { follow: true, offset: 0 }
    } else {
        ScrollState { follow: s.follow, offset: next }
    }
}

/// First visible line of the output view, derived from the line count, the
/// view height and the scroll state; never stored.
pub fn visible_window_start(total_lines: usize, visible_height: usize, follow: bool, offset: usize) -> (start: usize)
    ensures
        follow ==> start == sat_sub_usize(total_lines, visible_height),
        !follow ==> start == sat_sub_usize(sat_sub_usize(total_lines, visible_height), offset),
{
    if follow {
        total_lines.saturating_sub(visible_height)
    } else {
        total_lines.saturating_sub(visible_height).saturating_sub(offset)
    }
}

/// Saturating subtraction on usize, at the spec level.
pub open spec fn sat_sub_usize(a: usize, b: usize) -> usize {
    if a >= b {
        (a - b) as usize
    } else {
        0usize
    }
}

/// From the initial follow state, one line-up event leaves follow mode with
/// the view scrolled back a single line.
pub proof fn lemma_line_up_from_follow(s: ScrollState, page: usize, max_scroll: usize)
    requires
        s.follow,
        s.offset == 0,
    ensures
        s.step_spec(ScrollEvent::LineUp, page, max_scroll) == (ScrollState { follow: false, offset: 1 }),
{
}

/// An end or escape event restores follow mode with a zero offset from any
/// state whatsoever, so in particular regardless of any page moves made
/// before it.
pub proof fn lemma_end_resets(s: ScrollState, page: usize, max_scroll: usize)
    ensures
        s.step_spec(ScrollEvent::End, page, max_scroll) == (ScrollState { follow: true, offset: 0 }),
        s.step_spec(ScrollEvent::Escape, page, max_scroll) == (ScrollState { follow: true, offset: 0 }),
{
}

/// Every event preserves the state invariant: a following view always sits at
/// offset zero.
pub proof fn lemma_step_preserves_wf(s: ScrollState, ev: ScrollEvent, page: usize, max_scroll: usize)
    requires
        s.wf(),
    ensures
        s.step_spec(ev, page, max_scroll).wf(),
{
}

} // verus!
