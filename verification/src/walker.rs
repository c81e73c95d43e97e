//! Walking a straight segment of the grid and collecting the binary color
//! of every pixel on it, in visitation order. The direction comes purely
//! from the relative order of the two endpoints: an ascending pair is walked
//! forward, a descending pair backward.

use vstd::prelude::*;

use crate::geometry::Axis;
use crate::grid::PixelGrid;
use crate::grid::sample;

verus! {

/// The number of cells on the inclusive straight stretch from `a` to `b`.
pub open spec fn span_len(a: u32, b: u32) -> int {
    if a <= b {
        b - a + 1
    } else {
        a - b + 1
    }
}

/// The coordinate visited at step `i` when walking from `a` towards `b`.
pub open spec fn step_coord(a: u32, b: u32, i: int) -> int {
    if a <= b {
        a + i
    } else {
        a - i
    }
}

/// The bits read along the segment from `start` to `stop` (both inclusive,
/// (column, row) pairs) on the given axis, in visitation order.
pub open spec fn walk_spec(g: PixelGrid, start: (u32, u32), stop: (u32, u32), axis: Axis) -> Seq<
    u8,
> {
    match axis {
        Axis::Vertical => Seq::new(
            span_len(start.1, stop.1) as nat,
            |i: int| g.bit_at(start.0 as int, step_coord(start.1, stop.1, i)),
        ),
        Axis::Horizontal => Seq::new(
            span_len(start.0, stop.0) as nat,
            |i: int| g.bit_at(step_coord(start.0, stop.0, i), start.1 as int),
        ),
    }
}

/// The segment's endpoints lie inside the grid, and its fixed coordinate is
/// indeed fixed.
pub open spec fn walk_in_bounds(g: PixelGrid, start: (u32, u32), stop: (u32, u32), axis: Axis) -> bool {
    match axis {
        Axis::Vertical => start.0 == stop.0 && start.0 < g.spec_width() && start.1
            < g.spec_height() && stop.1 < g.spec_height(),
        Axis::Horizontal => start.1 == stop.1 && start.1 < g.spec_height() && start.0
            < g.spec_width() && stop.0 < g.spec_width(),
    }
}

/// Walks the row (on a vertical segment) or the column (on a horizontal one)
/// from `start` to `stop` inclusive, ascending or descending as the endpoint
/// order dictates, and returns one bit per visited pixel.
pub fn walk(grid: &PixelGrid, start: (u32, u32), stop: (u32, u32), axis: Axis) -> (r: Vec<u8>)
    requires
        grid.wf(),
        walk_in_bounds(*grid, start, stop, axis),
    ensures
        r@ == walk_spec(*grid, start, stop, axis),
{
    let (fixed, a, b): (u32, u32, u32) = match axis {
        Axis::Vertical => (start.0, start.1, stop.1),
        Axis::Horizontal => (start.1, start.0, stop.0),
    };
    let len: u32 = if a <= b {
        b - a + 1
    } else {
        a - b + 1
    };
    let mut bits: Vec<u8> = Vec::new();
    let mut i: u32 = 0;
    while i < len
        invariant
            grid.wf(),
            walk_in_bounds(*grid, start, stop, axis),
            (match axis {
                Axis::Vertical => fixed == start.0 && a == start.1 && b == stop.1,
                Axis::Horizontal => fixed == start.1 && a == start.0 && b == stop.0,
            }),
            len == span_len(a, b),
            i <= len,
            bits@ == walk_spec(*grid, start, stop, axis).take(i as int),
        decreases len - i,
    {
        let coord: u32 = if a <= b {
            a + i
        } else {
            a - i
        };
        let bit = match axis {
            Axis::Vertical => sample(grid, fixed, coord),
            Axis::Horizontal => sample(grid, coord, fixed),
        };
        bits.push(bit);
        i = i + 1;
        proof {
            assert(bits@ =~= walk_spec(*grid, start, stop, axis).take(i as int));
        }
    }
    proof {
        assert(bits@ =~= walk_spec(*grid, start, stop, axis));
    }
    bits
}

/// Walking a segment one way yields exactly the reverse of walking it the
/// other way: the bit sequence is symmetric under swapping the endpoints.
pub proof fn lemma_walk_reversal(g: PixelGrid, start: (u32, u32), stop: (u32, u32), axis: Axis)
    requires
        (match axis {
            Axis::Vertical => start.0 == stop.0,
            Axis::Horizontal => start.1 == stop.1,
        }),
    ensures
        walk_spec(g, start, stop, axis) == walk_spec(g, stop, start, axis).reverse(),
{
    let fwd = walk_spec(g, start, stop, axis);
    let bwd = walk_spec(g, stop, start, axis);
    assert(fwd.len() == bwd.len());
    assert forall|i: int| 0 <= i < fwd.len() implies fwd[i] == bwd[bwd.len() - 1 - i] by {
        match axis {
            Axis::Vertical => {
                assert(step_coord(start.1, stop.1, i) == step_coord(
                    stop.1,
                    start.1,
                    bwd.len() - 1 - i,
                ));
            },
            Axis::Horizontal => {
                assert(step_coord(start.0, stop.0, i) == step_coord(
                    stop.0,
                    start.0,
                    bwd.len() - 1 - i,
                ));
            },
        }
    }
    assert(fwd =~= bwd.reverse());
}

} // verus!
