//! The fixed overlay geometry: six directed segments that trace the
//! separator strips around the three finder patterns of a QR symbol, in
//! units of modules (one pixel per module).

use vstd::prelude::*;

verus! {

/// A QR finder pattern is always 7x7 modules, whatever the symbol version.
pub const FINDER_SIZE: u32 = 7;

/// The smallest module count of a valid QR symbol.
pub const MIN_MODULES: u32 = 21;

/// The total number of modules on the six segments, and so the number of
/// watermark bits.
pub const OVERLAY_BITS: usize = 45;

/// The axis along which a segment runs.
#[derive(Clone, Copy, Debug, PartialEq, Eq)]
pub enum Axis {
    Horizontal,
    Vertical,
}

/// A directed straight path from `start` to `stop`, both inclusive, given as
/// (column, row) pairs. On a `Vertical` segment the column is fixed and the
/// row is walked; on a `Horizontal` one, the other way round.
#[derive(Clone, Copy, Debug, PartialEq, Eq)]
pub struct Segment {
    pub start: (u32, u32),
    pub stop: (u32, u32),
    pub axis: Axis,
}

/// The six overlay segments for a `module_count`-wide symbol, in the fixed
/// order in which their bits are concatenated. Their lengths are
/// 8, 7, 8, 7, 8, 7: 45 modules in all.
pub open spec fn segments_spec(module_count: u32) -> Seq<Segment> {
    let w = (module_count - 1) as u32;
    let wm7 = (module_count - 8) as u32;
    seq![
        Segment { start: (7u32, w), stop: (7u32, wm7), axis: Axis::Vertical },
        Segment { start: (6u32, wm7), stop: (0u32, wm7), axis: Axis::Horizontal },
        Segment { start: (0u32, 7u32), stop: (7u32, 7u32), axis: Axis::Horizontal },
        Segment { start: (7u32, 6u32), stop: (7u32, 0u32), axis: Axis::Vertical },
        Segment { start: (wm7, 0u32), stop: (wm7, 7u32), axis: Axis::Vertical },
        Segment { start: ((module_count - 7) as u32, 7u32), stop: (w, 7u32), axis: Axis::Horizontal },
    ]
}

/// Computes the six overlay segments around the three finder-pattern
/// separators of a `module_count`-wide symbol.
pub fn segments(module_count: u32) -> (r: Vec<Segment>)
    requires
        module_count >= MIN_MODULES,
    ensures
        r@ == segments_spec(module_count),
{
    let f = FINDER_SIZE;
    let fm1 = FINDER_SIZE - 1;
    let w = module_count - 1;
    let wm7 = module_count - 8;
    let wm6 = module_count - FINDER_SIZE;
    let r = vec![
        Segment { start: (f, w), stop: (f, wm7), axis: Axis::Vertical },
        Segment { start: (fm1, wm7), stop: (0, wm7), axis: Axis::Horizontal },
        Segment { start: (0, f), stop: (f, f), axis: Axis::Horizontal },
        Segment { start: (f, fm1), stop: (f, 0), axis: Axis::Vertical },
        Segment { start: (wm7, 0), stop: (wm7, f), axis: Axis::Vertical },
        Segment { start: (wm6, f), stop: (w, f), axis: Axis::Horizontal },
    ];
    proof {
        assert(r@ =~= segments_spec(module_count));
    }
    r
}

/// The column of the `i`-th module on the 45-module overlay path of a
/// `module_count`-wide symbol, the six segments laid end to end.
pub open spec fn path_col(module_count: u32, i: int) -> int {
    if i < 8 {
        7
    } else if i < 15 {
        14 - i
    } else if i < 23 {
        i - 15
    } else if i < 30 {
        7
    } else if i < 38 {
        module_count - 8
    } else {
        module_count - 45 + i
    }
}

/// The row of the `i`-th module on the 45-module overlay path.
pub open spec fn path_row(module_count: u32, i: int) -> int {
    if i < 8 {
        module_count - 1 - i
    } else if i < 15 {
        module_count - 8
    } else if i < 23 {
        7
    } else if i < 30 {
        29 - i
    } else if i < 38 {
        i - 30
    } else {
        7
    }
}

} // verus!
