//! Hit-testing: which character boundary is nearest to a pixel position.

use vstd::prelude::*;

use crate::context::Context;
use crate::measure::{TextMeasurer, TextMetrics};

verus! {

/// The distance between two pixel positions.
pub open spec fn distance(a: int, b: int) -> int {
    if a >= b {
        a - b
    } else {
        b - a
    }
}

/// Whether `k` is the first index of `positions` at the least distance from `x`.
pub open spec fn is_first_nearest(positions: Seq<int>, x: int, k: int) -> bool {
    &&& 0 <= k < positions.len()
    &&& forall|j: int|
        0 <= j < positions.len() ==> distance(positions[k], x) <= distance(#[trigger] positions[j], x)
    &&& forall|j: int| 0 <= j < k ==> distance(#[trigger] positions[j], x) > distance(positions[k], x)
}

/// The first index of `positions` at the least distance from `x`; 0 when
/// there are no positions.
pub open spec fn nearest(positions: Seq<int>, x: int) -> int
    decreases positions.len(),
{
    if positions.len() <= 1 {
        0
    } else {
        let best = nearest(positions.drop_last(), x);
        if distance(positions.last(), x) < distance(positions[best], x) {
            positions.len() - 1
        } else {
            best
        }
    }
}

/// `nearest` picks the first of the positions that are nearest to `x`.
pub proof fn lemma_nearest_is_first_nearest(positions: Seq<int>, x: int)
    requires
        positions.len() > 0,
    ensures
        is_first_nearest(positions, x, nearest(positions, x)),
    decreases positions.len(),
{
    if positions.len() > 1 {
        let front = positions.drop_last();
        lemma_nearest_is_first_nearest(front, x);
        let best = nearest(front, x);
        assert(forall|j: int| 0 <= j < front.len() ==> front[j] == positions[j]);
        let k = nearest(positions, x);
        assert forall|j: int| 0 <= j < positions.len() implies distance(positions[k], x)
            <= distance(#[trigger] positions[j], x) by {
            if j < front.len() {
                assert(distance(front[best], x) <= distance(front[j], x));
            }
        }
        assert forall|j: int| 0 <= j < k implies distance(#[trigger] positions[j], x) > distance(
            positions[k],
            x,
        ) by {
            assert(distance(front[best], x) <= distance(front[j], x));
            if j < best {
                assert(distance(front[j], x) > distance(front[best], x));
            }
        }
    }
}

/// At most one index is the first nearest one.
pub proof fn lemma_first_nearest_unique(positions: Seq<int>, x: int, k: int)
    requires
        is_first_nearest(positions, x, k),
    ensures
        k == nearest(positions, x),
{
    lemma_nearest_is_first_nearest(positions, x);
    let n = nearest(positions, x);
    if k < n {
        assert(distance(positions[k], x) > distance(positions[n], x));
        assert(distance(positions[k], x) <= distance(positions[n], x));
    } else if n < k {
        assert(distance(positions[n], x) > distance(positions[k], x));
        assert(distance(positions[n], x) <= distance(positions[k], x));
    }
}

/// The pixel positions recorded in a table of `(index, position)` rows.
pub open spec fn positions_of(table: Seq<(usize, i64)>) -> Seq<int> {
    Seq::new(table.len(), |row: int| table[row].1 as int)
}

pub fn pixel_distance(a: i64, b: i64) -> (d: u64)
    ensures
        d == distance(a as int, b as int),
{
    if a >= b {
        (a as i128 - b as i128) as u64
    } else {
        (b as i128 - a as i128) as u64
    }
}

/// The index recorded in the first row of `table` whose position is nearest
/// to `x`; 0 for an empty table.
pub fn nearest_index(table: &Vec<(usize, i64)>, x: i64) -> (index: usize)
    ensures
        table@.len() == 0 ==> index == 0,
        table@.len() > 0 ==> index == table@[nearest(positions_of(table@), x as int)].0,
        table@.len() > 0 ==> is_first_nearest(
            positions_of(table@),
            x as int,
            nearest(positions_of(table@), x as int),
        ),
{
    if table.len() == 0 {
        return 0;
    }
    let ghost positions = positions_of(table@);
    let mut best: usize = 0;
    let mut best_distance: u64 = pixel_distance(table[0].1, x);
    let mut row: usize = 1;
    assert(nearest(positions.take(1), x as int) == 0);
    while row < table.len()
        invariant
            1 <= row <= table.len(),
            positions == positions_of(table@),
            best < row,
            best == nearest(positions.take(row as int), x as int),
            best_distance == distance(positions[best as int], x as int),
        decreases table.len() - row,
    {
        let d: u64 = pixel_distance(table[row].1, x);
        proof {
            let upto = positions.take(row + 1);
            assert(upto.drop_last() =~= positions.take(row as int));
            assert(upto.last() == positions[row as int]);
            assert(upto[best as int] == positions[best as int]);
        }
        if d < best_distance {
            best = row;
            best_distance = d;
        }
        row = row + 1;
    }
    proof {
        assert(positions.take(table.len() as int) =~= positions);
        lemma_nearest_is_first_nearest(positions, x as int);
    }
    table[best].0
}

impl<M: TextMeasurer> Context<M> {
    /// Measures the units `start..end` of the text in the widget's font; the
    /// metrics are zero when that is not a range of the buffer.
    pub fn measure(&self, start: usize, end: usize) -> (metrics: TextMetrics)
        ensures
            metrics == self@.measure(start as int, end as int),
    {
        match self.text.get_string(start, end) {
            Some(part) => self.measurer.measure(part.as_str(), self.font.as_str(), self.font_size),
            None => TextMetrics::default(),
        }
    }
}

/// The table of every character boundary of the text with its pixel position.
pub fn pixel_table<M: TextMeasurer>(ctx: &Context<M>) -> (table: Vec<(usize, i64)>)
    ensures
        table@.len() == ctx@.len() + 1,
        forall|index: int|
            0 <= index <= ctx@.len() ==> {
                &&& (#[trigger] table@[index]).0 == index
                &&& table@[index].1 == ctx@.pixel_of(index)
            },
        positions_of(table@) == ctx@.pixel_positions(),
{
    let len: usize = ctx.text.len();
    let origin: i64 = ctx.position.x as i64 + ctx.padding_left as i64 + ctx.caret.offset();
    let mut table: Vec<(usize, i64)> = Vec::new();
    let mut index: usize = 0;
    while index < len
        invariant
            index <= len,
            len == ctx@.len(),
            origin == ctx@.text_origin(),
            -0x2_0000_0000 <= origin <= 0x1_0000_0000,
            table@.len() == index,
            forall|k: int|
                0 <= k < index ==> {
                    &&& (#[trigger] table@[k]).0 == k
                    &&& table@[k].1 == ctx@.pixel_of(k)
                },
        decreases len - index,
    {
        let width: u32 = ctx.measure(0, index).width;
        table.push((index, origin + width as i64));
        index = index + 1;
    }
    let width: u32 = ctx.measure(0, len).width;
    table.push((len, origin + width as i64));
    assert(positions_of(table@) =~= ctx@.pixel_positions());
    table
}

/// The character boundary whose pixel position is nearest to `pixel_x`; of
/// several equally near boundaries the first.
pub fn locate<M: TextMeasurer>(pixel_x: i32, ctx: &Context<M>) -> (index: usize)
    ensures
        index == nearest(ctx@.pixel_positions(), pixel_x as int),
        is_first_nearest(ctx@.pixel_positions(), pixel_x as int, index as int),
        index <= ctx@.len(),
{
    let table = pixel_table(ctx);
    let index = nearest_index(&table, pixel_x as i64);
    proof {
        let positions = ctx@.pixel_positions();
        let row = nearest(positions, pixel_x as int);
        assert(table.len() == positions.len());
        assert(is_first_nearest(positions, pixel_x as int, row));
        assert(table@[row].0 == row as usize);
    }
    index
}

} // verus!
