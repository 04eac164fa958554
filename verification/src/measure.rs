//! Text measurement: the capability through which the engine learns how many
//! pixels a piece of text occupies.

use vstd::prelude::*;

verus! {

/// What a measurer reports for a piece of text, in whole pixels.
#[derive(Clone, Copy, Debug, PartialEq, Eq, Structural)]
pub struct TextMetrics {
    pub width: u32,
    pub ascent: u32,
}

impl TextMetrics {
    /// The metrics used when there is nothing to measure.
    pub open spec fn zero() -> TextMetrics {
        TextMetrics { width: 0, ascent: 0 }
    }

    pub fn new(width: u32, ascent: u32) -> (metrics: Self)
        ensures
            metrics == (TextMetrics { width, ascent }),
    {
        TextMetrics { width, ascent }
    }
}

impl Default for TextMetrics {
    fn default() -> (metrics: Self)
        ensures
            metrics == TextMetrics::zero(),
    {
        TextMetrics { width: 0, ascent: 0 }
    }
}

/// A synchronous text measurer whose answer depends on nothing but the text,
/// the font and the font size it is asked about.
pub trait TextMeasurer {
    /// The metrics this measurer assigns to `text` set in `font` at `font_size`.
    spec fn metrics(&self, text: Seq<char>, font: Seq<char>, font_size: u32) -> TextMetrics;

    fn measure(&self, text: &str, font: &str, font_size: u32) -> (metrics: TextMetrics)
        ensures
            metrics == self.metrics(text@, font@, font_size),
    ;
}

/// A measurer for monospaced text: every character is `glyph_width` pixels
/// wide, whatever the font and size, and widths saturate at `u32::MAX`.
#[derive(Clone, Copy, Debug)]
pub struct FixedWidthMeasurer {
    pub glyph_width: u32,
    pub ascent: u32,
}

/// `width` capped at `u32::MAX`.
pub open spec fn saturated(width: int) -> int {
    if width <= u32::MAX {
        width
    } else {
        u32::MAX as int
    }
}

impl FixedWidthMeasurer {
    pub fn new(glyph_width: u32, ascent: u32) -> (measurer: Self)
        ensures
            measurer.glyph_width == glyph_width,
            measurer.ascent == ascent,
    {
        FixedWidthMeasurer { glyph_width, ascent }
    }
}

impl TextMeasurer for FixedWidthMeasurer {
    open spec fn metrics(&self, text: Seq<char>, font: Seq<char>, font_size: u32) -> TextMetrics {
        TextMetrics {
            width: saturated(text.len() * self.glyph_width) as u32,
            ascent: self.ascent,
        }
    }

    fn measure(&self, text: &str, font: &str, font_size: u32) -> (metrics: TextMetrics) {
        let count: usize = text.unicode_len();
        let width: u32 = if self.glyph_width == 0 || count == 0 {
            assert(count * self.glyph_width == 0) by (nonlinear_arith)
                requires
                    count == 0 || self.glyph_width == 0,
            ;
            0
        } else if count > u32::MAX as usize {
            assert(count * self.glyph_width > u32::MAX) by (nonlinear_arith)
                requires
                    count > u32::MAX,
                    self.glyph_width >= 1,
            ;
            u32::MAX
        } else {
            assert(count * self.glyph_width <= 0xFFFF_FFFF * 0xFFFF_FFFF) by (nonlinear_arith)
                requires
                    0 <= count <= 0xFFFF_FFFF,
                    0 <= self.glyph_width <= 0xFFFF_FFFF,
            ;
            let product: u64 = count as u64 * self.glyph_width as u64;
            if product > u32::MAX as u64 {
                u32::MAX
            } else {
                product as u32
            }
        };
        TextMetrics { width, ascent: self.ascent }
    }
}

/// A measurer for proportional text: each character advances by the width
/// its first row in `advances` gives, a character without a row by
/// `fallback`, whatever the font and size; widths saturate at `u32::MAX`.
#[derive(Debug)]
pub struct AdvanceTable {
    pub advances: Vec<(char, u32)>,
    pub fallback: u32,
    pub ascent: u32,
}

/// The advance of `c`: that of the first row for `c`, or `fallback` without one.
pub open spec fn advance_of(advances: Seq<(char, u32)>, fallback: u32, c: char) -> u32
    decreases advances.len(),
{
    if advances.len() == 0 {
        fallback
    } else if advances[0].0 == c {
        advances[0].1
    } else {
        advance_of(advances.skip(1), fallback, c)
    }
}

/// The sum of the advances of the characters of `text`.
pub open spec fn total_advance(advances: Seq<(char, u32)>, fallback: u32, text: Seq<char>) -> int
    decreases text.len(),
{
    if text.len() == 0 {
        0
    } else {
        total_advance(advances, fallback, text.drop_last()) + advance_of(
            advances,
            fallback,
            text.last(),
        )
    }
}

impl AdvanceTable {
    pub fn new(advances: Vec<(char, u32)>, fallback: u32, ascent: u32) -> (table: Self)
        ensures
            table.advances == advances,
            table.fallback == fallback,
            table.ascent == ascent,
    {
        AdvanceTable { advances, fallback, ascent }
    }

    /// The advance of a single character.
    pub fn advance(&self, c: char) -> (width: u32)
        ensures
            width == advance_of(self.advances@, self.fallback, c),
    {
        let mut row: usize = 0;
        assert(self.advances@.skip(0) =~= self.advances@);
        while row < self.advances.len()
            invariant
                row <= self.advances.len(),
                advance_of(self.advances@, self.fallback, c) == advance_of(
                    self.advances@.skip(row as int),
                    self.fallback,
                    c,
                ),
            decreases self.advances.len() - row,
        {
            if self.advances[row].0 == c {
                return self.advances[row].1;
            }
            assert(self.advances@.skip(row as int).skip(1) =~= self.advances@.skip(row + 1));
            row = row + 1;
        }
        self.fallback
    }
}

impl TextMeasurer for AdvanceTable {
    open spec fn metrics(&self, text: Seq<char>, font: Seq<char>, font_size: u32) -> TextMetrics {
        TextMetrics {
            width: saturated(total_advance(self.advances@, self.fallback, text)) as u32,
            ascent: self.ascent,
        }
    }

    fn measure(&self, text: &str, font: &str, font_size: u32) -> (metrics: TextMetrics) {
        let mut width: u32 = 0;
        for c in it: text.chars()
            invariant
                it.seq() == text@,
                width == saturated(
                    total_advance(self.advances@, self.fallback, text@.take(it.index() as int)),
                ),
                0 <= total_advance(self.advances@, self.fallback, text@.take(it.index() as int)),
        {
            proof {
                assert(text@.take(it.index() + 1).drop_last() =~= text@.take(it.index() as int));
            }
            let step: u32 = self.advance(c);
            if step > u32::MAX - width {
                width = u32::MAX;
            } else {
                width = width + step;
            }
        }
        proof {
            assert(text@.take(text@.len() as int) =~= text@);
        }
        TextMetrics { width, ascent: self.ascent }
    }
}

} // verus!
