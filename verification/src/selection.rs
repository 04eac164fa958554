//! The selection model: an anchor and a caret, both counted in UTF-16 code units.

use vstd::prelude::*;

verus! {

/// A selection inside a text buffer.
///
/// `end` is the caret, the edge onto which Escape collapses the selection;
/// `start` is the edge that growing the selection and dragging move, and
/// where typed text goes. The two are unordered, and `start == end` is a
/// collapsed caret. The model checks no bounds: clamping against a buffer is
/// the caller's business.
#[derive(Clone, Copy, Debug, PartialEq, Eq, Structural)]
pub struct TextSelection {
    pub start: usize,
    pub end: usize,
}

impl TextSelection {
    /// The smaller of the two edges.
    pub open spec fn lo(self) -> usize {
        if self.start <= self.end {
            self.start
        } else {
            self.end
        }
    }

    /// The larger of the two edges.
    pub open spec fn hi(self) -> usize {
        if self.start <= self.end {
            self.end
        } else {
            self.start
        }
    }

    /// Whether both edges coincide.
    pub open spec fn collapsed(self) -> bool {
        self.start == self.end
    }

    /// Whether both edges lie inside a buffer of `len` code units.
    pub open spec fn within(self, len: int) -> bool {
        self.start <= len && self.end <= len
    }

    /// The collapsed selection at `pos`.
    pub open spec fn at(pos: usize) -> TextSelection {
        TextSelection { start: pos, end: pos }
    }

    pub fn new(start: usize, end: usize) -> (selection: Self)
        ensures
            selection == (TextSelection { start, end }),
    {
        TextSelection { start, end }
    }

    pub fn start(&self) -> (start: usize)
        ensures
            start == self.start,
    {
        self.start
    }

    pub fn end(&self) -> (end: usize)
        ensures
            end == self.end,
    {
        self.end
    }

    /// Collapses both edges to `pos`.
    pub fn set(&mut self, pos: usize)
        ensures
            *final(self) == TextSelection::at(pos),
    {
        self.start = pos;
        self.end = pos;
    }

    pub fn set_start(&mut self, pos: usize)
        ensures
            *final(self) == (TextSelection { start: pos, end: old(self).end }),
    {
        self.start = pos;
    }

    pub fn set_end(&mut self, pos: usize)
        ensures
            *final(self) == (TextSelection { start: old(self).start, end: pos }),
    {
        self.end = pos;
    }

    pub fn is_empty(&self) -> (empty: bool)
        ensures
            empty == self.collapsed(),
    {
        self.start == self.end
    }

    /// The two edges in ascending order.
    pub fn normalized(&self) -> (range: (usize, usize))
        ensures
            range == (self.lo(), self.hi()),
            range.0 <= range.1,
    {
        if self.start > self.end {
            (self.end, self.start)
        } else {
            (self.start, self.end)
        }
    }

    /// The number of code units between the two edges.
    pub fn len(&self) -> (len: usize)
        ensures
            len == self.hi() - self.lo(),
    {
        if self.start > self.end {
            self.start - self.end
        } else {
            self.end - self.start
        }
    }
}

impl Default for TextSelection {
    fn default() -> (selection: Self)
        ensures
            selection == TextSelection::at(0),
    {
        TextSelection { start: 0, end: 0 }
    }
}

/// Where a plain "left" keystroke takes a selection: a range collapses onto
/// its smaller edge, and a caret steps one unit left unless it is at 0.
pub open spec fn moved_left(selection: TextSelection) -> TextSelection {
    if !selection.collapsed() {
        TextSelection::at(selection.lo())
    } else if selection.start > 0 {
        TextSelection::at((selection.start - 1) as usize)
    } else {
        selection
    }
}

/// Where a plain "right" keystroke takes a selection in a buffer of `len`
/// units: a range collapses onto its larger edge, and a caret steps one unit
/// right unless it is at or beyond `len`.
pub open spec fn moved_right(selection: TextSelection, len: usize) -> TextSelection {
    if !selection.collapsed() {
        TextSelection::at(selection.hi())
    } else if selection.start < len {
        TextSelection::at((selection.start + 1) as usize)
    } else {
        selection
    }
}

pub fn move_selection_left(selection: TextSelection) -> (moved: TextSelection)
    ensures
        moved == moved_left(selection),
{
    let mut selection = selection;
    if selection.start < selection.end {
        selection.set_end(selection.start);
    } else if selection.start == selection.end {
        if selection.start > 0 {
            selection.set(selection.start - 1);
        }
    } else {
        selection.set_start(selection.end);
    }
    selection
}

pub fn move_selection_right(selection: TextSelection, len: usize) -> (moved: TextSelection)
    ensures
        moved == moved_right(selection, len),
{
    let mut selection = selection;
    if selection.start < selection.end {
        selection.set_start(selection.end);
    } else if selection.start == selection.end {
        if selection.start < len {
            selection.set(selection.start + 1);
        }
    } else {
        selection.set_end(selection.start);
    }
    selection
}

} // verus!
