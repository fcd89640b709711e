//! The visible window of a scrollable list.

use vstd::prelude::*;

verus! {

/// The half-open range `[start, end)` of list rows that are on screen.
#[derive(Clone, Copy, Debug, PartialEq, Eq, Structural)]
pub struct Viewport {
    pub start: usize,
    pub end: usize,
}

/// The smaller of two integers.
pub open spec fn min_int(a: int, b: int) -> int {
    if a <= b {
        a
    } else {
        b
    }
}

impl Viewport {
    /// A window over a list of `list_length` rows on a screen of
    /// `window_height` rows: it lies inside the list and is as tall as the
    /// screen and the list allow.
    pub open spec fn wf(self, list_length: int, window_height: int) -> bool {
        &&& self.start <= self.end <= list_length <= usize::MAX
        &&& self.end - self.start == min_int(window_height, list_length)
    }

    /// The row `selected` is on screen.
    pub open spec fn shows(self, selected: int) -> bool {
        self.start <= selected < self.end
    }

    /// The window after the selection has moved to `selected`: unchanged
    /// while the selection is on screen, else moved just far enough that
    /// the selection becomes the top row (moving up) or the bottom row
    /// (moving down).
    pub open spec fn scrolled(
        self,
        list_length: int,
        window_height: int,
        selected: int,
    ) -> Viewport {
        if selected < self.start {
            Viewport {
                start: selected as usize,
                end: min_int(selected + window_height, list_length) as usize,
            }
        } else if selected >= self.end {
            Viewport {
                start: if selected + 1 >= window_height {
                    (selected + 1 - window_height) as usize
                } else {
                    0
                },
                end: (selected + 1) as usize,
            }
        } else {
            self
        }
    }

    /// The window a list is first shown with.
    pub open spec fn initial(list_length: int, window_height: int) -> Viewport {
        Viewport { start: 0, end: min_int(window_height, list_length) as usize }
    }

    /// The window a list is first shown with: the top `window_height` rows.
    pub fn new(list_length: usize, window_height: usize) -> (v: Viewport)
        ensures
            v == Viewport::initial(list_length as int, window_height as int),
            v.wf(list_length as int, window_height as int),
    {
        Viewport {
            start: 0,
            end: if window_height <= list_length {
                window_height
            } else {
                list_length
            },
        }
    }

    /// Moves the window after the selection changed to `selected_index`.
    pub fn scroll(self, list_length: usize, window_height: usize, selected_index: usize) -> (v:
        Viewport)
        requires
            selected_index < list_length,
        ensures
            v == self.scrolled(list_length as int, window_height as int, selected_index as int),
            self.wf(list_length as int, window_height as int) ==> v.wf(
                list_length as int,
                window_height as int,
            ),
            self.end - self.start <= window_height ==> v.end - v.start <= window_height,
            window_height >= 1 && self.start <= self.end ==> v.shows(selected_index as int),
    {
        if selected_index < self.start {
            let room: usize = list_length - selected_index;
            let end: usize = if window_height >= room {
                list_length
            } else {
                selected_index + window_height
            };
            Viewport { start: selected_index, end }
        } else if selected_index >= self.end {
            let end: usize = selected_index + 1;
            Viewport { start: end.saturating_sub(window_height), end }
        } else {
            self
        }
    }
}

/// A screen of at least one row always shows the selection after
/// scrolling, and the window is never taller than the screen.
pub proof fn lemma_scroll_shows_selection(
    v: Viewport,
    list_length: int,
    window_height: int,
    selected: int,
)
    requires
        v.wf(list_length, window_height),
        window_height >= 1,
        0 <= selected < list_length,
    ensures
        v.scrolled(list_length, window_height, selected).wf(list_length, window_height),
        v.scrolled(list_length, window_height, selected).shows(selected),
        v.scrolled(list_length, window_height, selected).end - v.scrolled(
            list_length,
            window_height,
            selected,
        ).start <= window_height,
{
}

/// Scrolling never jumps: when the selection moves by one row, the window
/// stays where it is unless the selection stood on its first or last row,
/// and then it moves by at most one row.
pub proof fn lemma_single_step_scroll(
    v: Viewport,
    list_length: int,
    window_height: int,
    previous: int,
    selected: int,
)
    requires
        v.wf(list_length, window_height),
        v.shows(previous),
        0 <= selected < list_length,
        previous - 1 <= selected <= previous + 1,
    ensures
        v.start < previous < v.end - 1 ==> v.scrolled(list_length, window_height, selected) == v,
        v.start - 1 <= v.scrolled(list_length, window_height, selected).start <= v.start + 1,
        v.end - 1 <= v.scrolled(list_length, window_height, selected).end <= v.end + 1,
        v.scrolled(list_length, window_height, selected).start - v.start == v.scrolled(
            list_length,
            window_height,
            selected,
        ).end - v.end,
{
}

/// The window that a list is first shown with is a valid window.
pub proof fn lemma_initial_window_valid(list_length: int, window_height: int)
    requires
        0 <= list_length <= usize::MAX,
        0 <= window_height,
    ensures
        Viewport::initial(list_length, window_height).wf(list_length, window_height),
{
}

} // verus!
