//! The caret's visual state and the horizontal scrolling that keeps the caret
//! inside the viewport.

use vstd::prelude::*;

verus! {

/// The direction of the most recent navigation or edit; it decides which edge
/// of the viewport the caret is scrolled back to.
#[derive(Clone, Copy, Debug, PartialEq, Eq, Structural)]
pub enum Direction {
    Left,
    Right,
    Unset,
}

impl Default for Direction {
    fn default() -> (direction: Self)
        ensures
            direction == Direction::Unset,
    {
        Direction::Unset
    }
}

/// The offset after text of width `removed` was deleted in front of the
/// caret: the text moves right by that width, but never past its unscrolled
/// position.
pub open spec fn offset_after_removal(offset: int, removed: int) -> int {
    if offset + removed < 0 {
        offset + removed
    } else {
        0
    }
}

/// The offset that brings a caret `caret` pixels into the text back into a
/// viewport of `viewport_width` pixels.
///
/// Moving right, a caret beyond the right edge is put on that edge; moving
/// left, a caret before the left edge is put on that edge; in every other
/// case the offset stays as it is.
pub open spec fn scrolled_offset(
    offset: int,
    viewport_width: int,
    caret: int,
    direction: Direction,
) -> int {
    match direction {
        Direction::Right => if caret > viewport_width - offset {
            viewport_width - caret
        } else {
            offset
        },
        Direction::Left => if caret + offset < 0 {
            -caret
        } else {
            offset
        },
        Direction::Unset => offset,
    }
}

/// An offset clamped into the range a caret can hold.
pub open spec fn clamped_offset(offset: int) -> int {
    if offset > 0 {
        0
    } else if offset < -(u32::MAX as int) {
        -(u32::MAX as int)
    } else {
        offset
    }
}

/// Where the caret and the selection highlight are drawn.
///
/// `scroll` is how far the text is scrolled to the left; the horizontal offset
/// of the text is `-scroll` and so never positive.
#[derive(Clone, Copy, Debug, PartialEq, Eq, Structural)]
pub struct CaretVisual {
    pub cursor_x: u32,
    pub selection_x: u32,
    pub selection_width: u32,
    pub scroll: u32,
    pub visible: bool,
}

impl CaretVisual {
    /// The horizontal offset of the text, in pixels.
    pub open spec fn offset_value(self) -> int {
        -(self.scroll as int)
    }

    /// This caret with its offset replaced by `offset`.
    pub open spec fn with_offset(self, offset: int) -> CaretVisual {
        CaretVisual { scroll: (-offset) as u32, ..self }
    }

    /// This caret after text of width `removed` was deleted in front of it.
    pub open spec fn after_removal(self, removed: u32) -> CaretVisual {
        self.with_offset(offset_after_removal(self.offset_value(), removed as int))
    }

    /// This caret scrolled back into a viewport of `viewport_width` pixels.
    pub open spec fn scrolled(self, viewport_width: u32, direction: Direction) -> CaretVisual {
        self.with_offset(
            scrolled_offset(
                self.offset_value(),
                viewport_width as int,
                self.cursor_x as int,
                direction,
            ),
        )
    }

    /// Where the caret appears inside the viewport, in pixels from its left edge.
    pub open spec fn caret_in_viewport(self) -> int {
        self.cursor_x + self.offset_value()
    }

    /// A hidden caret at the start of unscrolled text.
    pub fn new() -> (caret: Self)
        ensures
            caret == (CaretVisual {
                cursor_x: 0,
                selection_x: 0,
                selection_width: 0,
                scroll: 0,
                visible: false,
            }),
    {
        CaretVisual { cursor_x: 0, selection_x: 0, selection_width: 0, scroll: 0, visible: false }
    }

    pub fn offset(&self) -> (offset: i64)
        ensures
            offset == self.offset_value(),
            -(u32::MAX as int) <= offset <= 0,
    {
        -(self.scroll as i64)
    }

    /// Sets the offset, clamped to at most 0 and to what a caret can hold.
    pub fn set_offset(&mut self, offset: i64)
        ensures
            *final(self) == old(self).with_offset(clamped_offset(offset as int)),
            final(self).offset_value() == clamped_offset(offset as int),
    {
        if offset > 0 {
            self.scroll = 0;
        } else if offset < -(u32::MAX as i64) {
            self.scroll = u32::MAX;
        } else {
            self.scroll = (-offset) as u32;
        }
    }

    /// Accounts for deleted text of width `removed_width` in front of the caret.
    pub fn shift_after_removal(&mut self, removed_width: u32)
        ensures
            *final(self) == old(self).after_removal(removed_width),
            final(self).offset_value() == offset_after_removal(
                old(self).offset_value(),
                removed_width as int,
            ),
    {
        if removed_width >= self.scroll {
            self.scroll = 0;
        } else {
            self.scroll = self.scroll - removed_width;
        }
    }

    /// Scrolls by the least amount that keeps the caret at `cursor_x` visible
    /// on the side it is moving towards.
    pub fn scroll_into_view(&mut self, viewport_width: u32, direction: Direction)
        ensures
            *final(self) == old(self).scrolled(viewport_width, direction),
            final(self).offset_value() == scrolled_offset(
                old(self).offset_value(),
                viewport_width as int,
                old(self).cursor_x as int,
                direction,
            ),
            direction == Direction::Right ==> final(self).caret_in_viewport() <= viewport_width,
            direction == Direction::Left ==> final(self).caret_in_viewport() >= 0,
            0 <= old(self).caret_in_viewport() <= viewport_width ==> *final(self) == *old(self),
            *final(self) != *old(self) ==> final(self).caret_in_viewport() == (if direction
                == Direction::Right {
                viewport_width as int
            } else {
                0
            }),
    {
        match direction {
            Direction::Right => {
                if self.cursor_x as u64 > viewport_width as u64 + self.scroll as u64 {
                    self.scroll = self.cursor_x - viewport_width;
                }
            },
            Direction::Left => {
                if self.cursor_x < self.scroll {
                    self.scroll = self.cursor_x;
                }
            },
            Direction::Unset => {},
        }
    }
}

impl Default for CaretVisual {
    fn default() -> (caret: Self)
        ensures
            caret == (CaretVisual {
                cursor_x: 0,
                selection_x: 0,
                selection_width: 0,
                scroll: 0,
                visible: false,
            }),
    {
        CaretVisual::new()
    }
}

} // verus!
