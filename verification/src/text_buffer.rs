//! The editable text: a sequence of UTF-16 code units addressed by unit index.

use vstd::prelude::*;

use crate::utf16;

verus! {

/// `idx` clamped into a buffer of `len` units.
pub open spec fn clamped(idx: int, len: int) -> int {
    if idx < len {
        idx
    } else {
        len
    }
}

/// `text` with `inserted` spliced in at `idx`, or at the end when `idx` lies beyond it.
pub open spec fn spliced(text: Seq<u16>, idx: int, inserted: Seq<u16>) -> Seq<u16> {
    let at = clamped(idx, text.len() as int);
    text.subrange(0, at) + inserted + text.subrange(at, text.len() as int)
}

/// `text` without the unit at `idx`; unchanged when there is no such unit.
pub open spec fn without_unit(text: Seq<u16>, idx: int) -> Seq<u16> {
    if 0 <= idx < text.len() {
        text.remove(idx)
    } else {
        text
    }
}

/// `text` without the units in `lo..hi`, both clamped to the buffer; unchanged
/// when the range is empty.
pub open spec fn without_range(text: Seq<u16>, lo: int, hi: int) -> Seq<u16> {
    let len = text.len() as int;
    if lo < hi {
        text.subrange(0, clamped(lo, len)) + text.subrange(clamped(hi, len), len)
    } else {
        text
    }
}

/// The text that the units `start..end` decode to, if that is a range of the buffer.
pub open spec fn substring(text: Seq<u16>, start: int, end: int) -> Option<Seq<char>> {
    if 0 <= start <= end <= text.len() {
        Some(utf16::decode_utf16(text.subrange(start, end)))
    } else {
        None
    }
}

/// An owned buffer of UTF-16 code units.
#[derive(Debug)]
pub struct TextBuffer {
    units: Vec<u16>,
}

impl View for TextBuffer {
    type V = Seq<u16>;

    closed spec fn view(&self) -> Seq<u16> {
        self.units@
    }
}

impl Clone for TextBuffer {
    fn clone(&self) -> (buffer: Self)
        ensures
            buffer@ == self@,
    {
        TextBuffer { units: self.units.clone() }
    }
}

impl TextBuffer {
    pub fn new() -> (buffer: Self)
        ensures
            buffer@ == Seq::<u16>::empty(),
    {
        TextBuffer { units: Vec::new() }
    }

    /// The buffer that holds the encoding of `text`; read back as a string
    /// it is `text` again.
    pub fn from_str(text: &str) -> (buffer: Self)
        ensures
            buffer@ == utf16::encode_utf16(text@),
            utf16::decode_utf16(buffer@) == text@,
    {
        proof {
            utf16::lemma_decode_encode(text@);
        }
        TextBuffer { units: utf16::encode(text) }
    }

    pub fn from_units(units: Vec<u16>) -> (buffer: Self)
        ensures
            buffer@ == units@,
    {
        TextBuffer { units }
    }

    /// The code units of the buffer.
    pub fn as_units(&self) -> (units: &Vec<u16>)
        ensures
            units@ == self@,
    {
        &self.units
    }

    /// The number of code units.
    pub fn len(&self) -> (len: usize)
        ensures
            len == self@.len(),
    {
        self.units.len()
    }

    pub fn is_empty(&self) -> (empty: bool)
        ensures
            empty == (self@.len() == 0),
    {
        self.units.len() == 0
    }

    /// The unit at `idx`, if there is one.
    pub fn get(&self, idx: usize) -> (unit: Option<u16>)
        ensures
            unit == if idx < self@.len() {
                Some(self@[idx as int])
            } else {
                None
            },
    {
        if idx < self.units.len() {
            Some(self.units[idx])
        } else {
            None
        }
    }

    /// Splices the encoding of `text` in at `idx`; an index beyond the end
    /// inserts at the end.
    pub fn insert_str(&mut self, idx: usize, text: &str)
        ensures
            final(self)@ == spliced(old(self)@, idx as int, utf16::encode_utf16(text@)),
    {
        let at: usize = if idx < self.units.len() {
            idx
        } else {
            self.units.len()
        };
        let mut inserted = utf16::encode(text);
        let mut tail = self.units.split_off(at);
        self.units.append(&mut inserted);
        self.units.append(&mut tail);
    }

    /// Removes the unit at `idx` and returns it; does nothing when `idx` is
    /// not an index of the buffer.
    pub fn remove(&mut self, idx: usize) -> (removed: Option<u16>)
        ensures
            final(self)@ == without_unit(old(self)@, idx as int),
            removed == if idx < old(self)@.len() {
                Some(old(self)@[idx as int])
            } else {
                None
            },
    {
        if idx < self.units.len() {
            Some(self.units.remove(idx))
        } else {
            None
        }
    }

    /// Removes the units in `lo..hi`, clamped to the buffer, from the highest
    /// index down.
    pub fn remove_range(&mut self, lo: usize, hi: usize)
        ensures
            final(self)@ == without_range(old(self)@, lo as int, hi as int),
    {
        if lo >= hi {
            return ;
        }
        let len: usize = self.units.len();
        let from: usize = if lo < len {
            lo
        } else {
            len
        };
        let to: usize = if hi < len {
            hi
        } else {
            len
        };
        let mut i: usize = to;
        while i > from
            invariant
                from <= i <= to <= len,
                len == old(self)@.len(),
                self.units@ == old(self)@.subrange(0, i as int) + old(self)@.subrange(
                    to as int,
                    len as int,
                ),
            decreases i,
        {
            i = i - 1;
            self.units.remove(i);
            assert(self.units@ =~= old(self)@.subrange(0, i as int) + old(self)@.subrange(
                to as int,
                len as int,
            ));
        }
        assert(old(self)@.subrange(0, len as int) =~= old(self)@);
    }

    /// The text of the units `start..end`, decoded lossily, or `None` when
    /// that is not a range of the buffer.
    pub fn get_string(&self, start: usize, end: usize) -> (text: Option<String>)
        ensures
            text.is_some() == substring(self@, start as int, end as int).is_some(),
            text matches Some(t) ==> Some(t@) == substring(self@, start as int, end as int),
    {
        if start <= end && end <= self.units.len() {
            Some(utf16::decode_range(&self.units, start, end))
        } else {
            None
        }
    }

    /// The whole buffer as a string, decoded lossily.
    pub fn to_string(&self) -> (text: String)
        ensures
            text@ == utf16::decode_utf16(self@),
    {
        utf16::decode(&self.units)
    }
}

} // verus!
