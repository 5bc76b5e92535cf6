//! How the analysis passes cut a buffer into frames and slices.
use vstd::prelude::*;

verus! {

/// Frames of `frame` samples, one every `hop` samples: as many as
/// ⌊(len − frame) / hop⌋, none when `len ≤ frame`.
pub open spec fn frame_count_spec(len: int, frame: int, hop: int) -> int {
    if len > frame {
        (len - frame) / hop
    } else {
        0
    }
}

/// Windows of `frame` samples whose starts step by `hop` below `len − frame`:
/// ⌈(len − frame) / hop⌉ of them, none when `len ≤ frame`.
pub open spec fn window_count_spec(len: int, frame: int, hop: int) -> int {
    if len > frame {
        (len - frame + hop - 1) / hop
    } else {
        0
    }
}

/// The number of whole frames that a pass with frames of `frame` samples
/// and a hop of `hop` samples takes from `len` samples; each of them lies
/// within the buffer.
pub fn frame_count(len: usize, frame: usize, hop: usize) -> (r: usize)
    requires
        hop > 0,
    ensures
        r as int == frame_count_spec(len as int, frame as int, hop as int),
        forall|i: int| 0 <= i < r ==> #[trigger] (i * hop) + frame <= len,
{
    if len <= frame {
        return 0;
    }
    let r = (len - frame) / hop;
    assert forall|i: int| 0 <= i < r implies #[trigger] (i * hop) + frame <= len by {
        assert(i * hop <= (r - 1) * hop) by (nonlinear_arith)
            requires
                0 <= i < r,
                hop > 0,
        ;
        assert(r * hop <= len - frame) by (nonlinear_arith)
            requires
                r == (len as int - frame as int) / (hop as int),
                hop > 0,
                len > frame,
        ;
        assert((r - 1) * hop == r * hop - hop) by (nonlinear_arith);
    }
    r
}

/// The number of windows of `frame` samples whose starts step by `hop` from
/// 0 while below `len − frame`; each window lies within the buffer.
pub fn window_count(len: usize, frame: usize, hop: usize) -> (r: usize)
    requires
        hop > 0,
    ensures
        r as int == window_count_spec(len as int, frame as int, hop as int),
        forall|i: int| 0 <= i < r ==> #[trigger] (i * hop) + frame < len,
{
    if len <= frame {
        return 0;
    }
    let m = len - frame;
    let r = (m - 1) / hop + 1;
    assert(r as int == (m as int + hop as int - 1) / (hop as int)) by (nonlinear_arith)
        requires
            r as int == (m as int - 1) / (hop as int) + 1,
            hop > 0,
            m > 0,
    ;
    assert forall|i: int| 0 <= i < r implies #[trigger] (i * hop) + frame < len by {
        assert(i * hop < m) by (nonlinear_arith)
            requires
                0 <= i < r,
                r as int == (m as int - 1) / (hop as int) + 1,
                hop > 0,
                m > 0,
        ;
    }
    r
}

/// The first and last quarter of an envelope slice of `len` values: the
/// first quarter ends at ⌊len/4⌋, the last starts at ⌊3·len/4⌋. `None` when
/// the first quarter would be empty (under four values), where the mean of a
/// quarter has no value.
pub fn quartile_bounds(len: usize) -> (r: Option<(usize, usize)>)
    requires
        len <= usize::MAX / 3,
    ensures
        match r {
            Some((first, last)) => first == len / 4 && last as int == len * 3 / 4 && 0 < first
                < last < len,
            None => len < 4,
        },
{
    if len < 4 {
        return None;
    }
    let first = len / 4;
    let last = len * 3 / 4;
    Some((first, last))
}

} // verus!
