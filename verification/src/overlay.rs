//! The overlay decision: a grid is authentic for a payload exactly when it
//! is a square carrier of sufficient size and the bits observed along the
//! fixed overlay path equal the payload's reference watermark.

use vstd::prelude::*;

use crate::fingerprint::reference_bits;
use crate::geometry::MIN_MODULES;
use crate::geometry::OVERLAY_BITS;
use crate::geometry::Segment;
use crate::geometry::path_col;
use crate::geometry::path_row;
use crate::geometry::segments;
use crate::geometry::segments_spec;
use crate::grid::PixelGrid;
use crate::walker::walk;
use crate::walker::walk_in_bounds;
use crate::walker::walk_spec;

verus! {

/// A grid can carry the overlay at all: square, and at least the smallest
/// QR module count on a side.
pub open spec fn geometry_ok(g: PixelGrid) -> bool {
    g.spec_width() == g.spec_height() && g.spec_width() >= MIN_MODULES
}

/// The bits a single segment contributes.
pub open spec fn segment_bits(g: PixelGrid, s: Segment) -> Seq<u8> {
    walk_spec(g, s.start, s.stop, s.axis)
}

/// The watermark bits observed in the grid: the six overlay segments walked
/// in their fixed order, results laid end to end.
pub open spec fn observed_bits(g: PixelGrid) -> Seq<u8> {
    let segs = segments_spec(g.spec_width());
    segment_bits(g, segs[0]) + segment_bits(g, segs[1]) + segment_bits(g, segs[2]) + segment_bits(
        g,
        segs[3],
    ) + segment_bits(g, segs[4]) + segment_bits(g, segs[5])
}

/// What `verify` decides: the grid is a valid carrier and the
/// observed bits equal the payload's reference watermark.
pub open spec fn verify_spec(g: PixelGrid, payload: Seq<u8>) -> bool {
    geometry_ok(g) && observed_bits(g) == reference_bits(payload)
}

/// Each overlay segment of a valid carrier lies inside the grid.
pub proof fn lemma_segments_in_bounds(g: PixelGrid)
    requires
        geometry_ok(g),
    ensures
        forall|k: int|
            0 <= k < 6 ==> #[trigger] walk_in_bounds(
                g,
                segments_spec(g.spec_width())[k].start,
                segments_spec(g.spec_width())[k].stop,
                segments_spec(g.spec_width())[k].axis,
            ),
{
}

/// The observed bits are exactly one sample per module of the 45-module
/// overlay path: bit `i` is the binary color of the pixel at
/// (`path_col(n, i)`, `path_row(n, i)`) for an `n`-module carrier.
pub proof fn lemma_observed_path_samples(g: PixelGrid)
    requires
        geometry_ok(g),
    ensures
        observed_bits(g).len() == 45,
        forall|i: int|
            0 <= i < 45 ==> #[trigger] observed_bits(g)[i] == g.bit_at(
                path_col(g.spec_width(), i),
                path_row(g.spec_width(), i),
            ),
{
    let n = g.spec_width();
    let segs = segments_spec(n);
    assert(segment_bits(g, segs[0]).len() == 8);
    assert(segment_bits(g, segs[1]).len() == 7);
    assert(segment_bits(g, segs[2]).len() == 8);
    assert(segment_bits(g, segs[3]).len() == 7);
    assert(segment_bits(g, segs[4]).len() == 8);
    assert(segment_bits(g, segs[5]).len() == 7);
    assert forall|i: int| 0 <= i < 45 implies #[trigger] observed_bits(g)[i] == g.bit_at(
        path_col(n, i),
        path_row(n, i),
    ) by {
        if i < 8 {
            assert(observed_bits(g)[i] == segment_bits(g, segs[0])[i]);
        } else if i < 15 {
            assert(observed_bits(g)[i] == segment_bits(g, segs[1])[i - 8]);
        } else if i < 23 {
            assert(observed_bits(g)[i] == segment_bits(g, segs[2])[i - 15]);
        } else if i < 30 {
            assert(observed_bits(g)[i] == segment_bits(g, segs[3])[i - 23]);
        } else if i < 38 {
            assert(observed_bits(g)[i] == segment_bits(g, segs[4])[i - 30]);
        } else {
            assert(observed_bits(g)[i] == segment_bits(g, segs[5])[i - 38]);
        }
    }
}

/// A correctly watermarked carrier is accepted: if a valid square grid's
/// overlay-path pixels encode, module by module, the 45 reference bits of a
/// payload, the grid verifies against that payload.
pub proof fn lemma_watermarked_accepts(g: PixelGrid, payload: Seq<u8>)
    requires
        geometry_ok(g),
        reference_bits(payload).len() == 45,
        forall|i: int|
            0 <= i < 45 ==> #[trigger] g.bit_at(
                path_col(g.spec_width(), i),
                path_row(g.spec_width(), i),
            ) == reference_bits(payload)[i],
    ensures
        verify_spec(g, payload),
{
    lemma_observed_path_samples(g);
    assert(observed_bits(g) =~= reference_bits(payload));
}

/// A swapped payload is rejected: a grid whose observed bits equal one
/// payload's reference watermark fails to verify against any payload whose
/// reference watermark differs.
pub proof fn lemma_tampered_payload_rejected(g: PixelGrid, carried: Seq<u8>, claimed: Seq<u8>)
    requires
        observed_bits(g) == reference_bits(carried),
        reference_bits(carried) != reference_bits(claimed),
    ensures
        !verify_spec(g, claimed),
{
}

/// Compares two bit vectors for exact, order-sensitive equality.
pub fn bits_equal(a: &Vec<u8>, b: &Vec<u8>) -> (r: bool)
    ensures
        r == (a@ == b@),
{
    if a.len() != b.len() {
        return false;
    }
    let n = a.len();
    let mut i: usize = 0;
    while i < n
        invariant
            i <= n,
            n == a@.len() == b@.len(),
            forall|j: int| 0 <= j < i ==> a@[j] == b@[j],
        decreases n - i,
    {
        if a[i] != b[i] {
            return false;
        }
        i = i + 1;
    }
    proof {
        assert(a@ =~= b@);
    }
    true
}

/// Checks a grid against a claimed payload: returns `true` exactly when the
/// grid is square with at least 21 modules on a side and the 45 bits along
/// the overlay path equal the first 45 bits of the payload's digest
/// expansion. A non-square or too-small grid yields `false` with no bit
/// extraction attempted.
pub fn verify(grid: &PixelGrid, payload: &[u8]) -> (r: bool)
    requires
        grid.wf(),
    ensures
        r == verify_spec(*grid, payload@),
        !geometry_ok(*grid) ==> r == false,
{
    let width = grid.width();
    let height = grid.height();
    if width != height || width < MIN_MODULES {
        return false;
    }
    let reference = crate::fingerprint::derive(payload, OVERLAY_BITS);
    let segs = segments(width);
    proof {
        lemma_segments_in_bounds(*grid);
    }
    let mut observed = walk(grid, segs[0].start, segs[0].stop, segs[0].axis);
    let mut part = walk(grid, segs[1].start, segs[1].stop, segs[1].axis);
    observed.append(&mut part);
    let mut part = walk(grid, segs[2].start, segs[2].stop, segs[2].axis);
    observed.append(&mut part);
    let mut part = walk(grid, segs[3].start, segs[3].stop, segs[3].axis);
    observed.append(&mut part);
    let mut part = walk(grid, segs[4].start, segs[4].stop, segs[4].axis);
    observed.append(&mut part);
    let mut part = walk(grid, segs[5].start, segs[5].stop, segs[5].axis);
    observed.append(&mut part);
    proof {
        assert(observed@ =~= observed_bits(*grid));
        assert(reference@ == reference_bits(payload@));
    }
    bits_equal(&observed, &reference)
}

} // verus!
