//! Vertical and horizontal scrolling of a tile's content, one line, one page
//! or four columns at a time.
use vstd::prelude::*;

verus! {

/// How far a tile's content is scrolled, and how many lines it showed last
/// time it was drawn.
#[derive(Debug, Clone, Copy, PartialEq, Eq, Structural)]
pub struct ScrollState {
    pub v_scroll: usize,
    pub h_scroll: usize,
    pub last_viewport: usize,
}

/// The furthest line a view can scroll to: the content length less the
/// viewport, which counts as at least one line.
pub open spec fn max_scroll(total: int, viewport: int) -> int {
    let v = if viewport < 1 {
        1
    } else {
        viewport
    };
    if total > v {
        total - v
    } else {
        0
    }
}

/// The scroll position after a line down: one more, unless at the end.
pub open spec fn scrolled_down(v: int, total: int, viewport: int) -> int {
    if v < max_scroll(total, viewport) {
        v + 1
    } else {
        v
    }
}

/// The scroll position after `n` lines down.
pub open spec fn scrolled_down_by(v: int, total: int, viewport: int, n: int) -> int {
    let m = max_scroll(total, viewport);
    if v < m {
        if v + n < m {
            v + n
        } else {
            m
        }
    } else {
        v
    }
}

/// `v` less `n`, not below zero.
pub open spec fn sub_floor(v: int, n: int) -> int {
    if v >= n {
        v - n
    } else {
        0
    }
}

impl ScrollState {
    /// Nothing scrolled, no viewport known.
    pub fn new() -> (r: ScrollState)
        ensures
            r.v_scroll == 0 && r.h_scroll == 0 && r.last_viewport == 0,
    {
        ScrollState { v_scroll: 0, h_scroll: 0, last_viewport: 0 }
    }

    /// Back to nothing scrolled and no viewport known.
    pub fn reset(&mut self)
        ensures
            final(self).v_scroll == 0 && final(self).h_scroll == 0 && final(self).last_viewport == 0,
    {
        *self = ScrollState::new();
    }

    /// One line up, stopping at the top.
    pub fn scroll_up(&mut self)
        ensures
            final(self).v_scroll == sub_floor(old(self).v_scroll as int, 1),
            final(self).h_scroll == old(self).h_scroll,
            final(self).last_viewport == old(self).last_viewport,
    {
        self.v_scroll = self.v_scroll.saturating_sub(1);
    }

    /// One line down through `total` lines, stopping when the last line shows
    /// at the bottom of the last viewport.
    pub fn scroll_down(&mut self, total: usize)
        ensures
            final(self).v_scroll == scrolled_down(
                old(self).v_scroll as int,
                total as int,
                old(self).last_viewport as int,
            ),
            final(self).h_scroll == old(self).h_scroll,
            final(self).last_viewport == old(self).last_viewport,
    {
        let viewport = if self.last_viewport < 1 {
            1
        } else {
            self.last_viewport
        };
        let max = total.saturating_sub(viewport);
        if self.v_scroll < max {
            self.v_scroll = self.v_scroll + 1;
        }
    }

    /// Twenty lines up.
    pub fn scroll_page_up(&mut self)
        ensures
            final(self).v_scroll == sub_floor(old(self).v_scroll as int, 20),
            final(self).h_scroll == old(self).h_scroll,
            final(self).last_viewport == old(self).last_viewport,
    {
        let ghost start = *self;
        let mut k: usize = 0;
        while k < 20
            invariant
                k <= 20,
                self.v_scroll == sub_floor(start.v_scroll as int, k as int),
                self.h_scroll == start.h_scroll,
                self.last_viewport == start.last_viewport,
            decreases 20 - k,
        {
            self.scroll_up();
            k = k + 1;
        }
    }

    /// Twenty lines down through `total` lines.
    pub fn scroll_page_down(&mut self, total: usize)
        ensures
            final(self).v_scroll == scrolled_down_by(
                old(self).v_scroll as int,
                total as int,
                old(self).last_viewport as int,
                20,
            ),
            final(self).h_scroll == old(self).h_scroll,
            final(self).last_viewport == old(self).last_viewport,
    {
        let ghost start = *self;
        let mut k: usize = 0;
        while k < 20
            invariant
                k <= 20,
                self.v_scroll == scrolled_down_by(
                    start.v_scroll as int,
                    total as int,
                    start.last_viewport as int,
                    k as int,
                ),
                self.h_scroll == start.h_scroll,
                self.last_viewport == start.last_viewport,
            decreases 20 - k,
        {
            self.scroll_down(total);
            k = k + 1;
        }
    }

    /// Four columns left, stopping at the first.
    pub fn scroll_left(&mut self)
        ensures
            final(self).h_scroll == sub_floor(old(self).h_scroll as int, 4),
            final(self).v_scroll == old(self).v_scroll,
            final(self).last_viewport == old(self).last_viewport,
    {
        self.h_scroll = self.h_scroll.saturating_sub(4);
    }

    /// Four columns right.
    pub fn scroll_right(&mut self)
        requires
            old(self).h_scroll + 4 <= usize::MAX,
        ensures
            final(self).h_scroll == old(self).h_scroll + 4,
            final(self).v_scroll == old(self).v_scroll,
            final(self).last_viewport == old(self).last_viewport,
    {
        self.h_scroll = self.h_scroll + 4;
    }

    /// Records the viewport a draw of `total` lines has, and pulls the scroll
    /// position back so that the last line is at the bottom at the furthest;
    /// the furthest position is returned when the content is longer than the
    /// viewport, for the scrollbar.
    pub fn fit_viewport(&mut self, total: usize, viewport: usize) -> (r: Option<usize>)
        ensures
            final(self).last_viewport == viewport,
            final(self).h_scroll == old(self).h_scroll,
            total == 0 || total <= viewport ==> {
                &&& r is None
                &&& final(self).v_scroll == old(self).v_scroll
            },
            total != 0 && total > viewport ==> {
                &&& r == Some((total - viewport) as usize)
                &&& final(self).v_scroll == (if old(self).v_scroll > total - viewport {
                    total - viewport
                } else {
                    old(self).v_scroll as int
                })
            },
    {
        self.last_viewport = viewport;
        if total == 0 || total <= viewport {
            return None;
        }
        let max = total - viewport;
        if self.v_scroll > max {
            self.v_scroll = max;
        }
        Some(max)
    }
}

/// Scrolling down never passes the furthest position, and scrolling up and
/// down a line returns to where one was, away from the ends.
pub proof fn law_scroll_bounds(v: int, total: int, viewport: int)
    requires
        0 <= v <= max_scroll(total, viewport),
    ensures
        scrolled_down(v, total, viewport) <= max_scroll(total, viewport),
        scrolled_down_by(v, total, viewport, 20) <= max_scroll(total, viewport),
        v < max_scroll(total, viewport) ==> sub_floor(scrolled_down(v, total, viewport), 1) == v,
        v > 0 ==> scrolled_down(sub_floor(v, 1), total, viewport) == v,
{
}

} // verus!
