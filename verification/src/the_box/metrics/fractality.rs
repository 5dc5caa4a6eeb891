//! Fractality of thought timing: the gaps between thought timestamps, and
//! the constants that normalise and weigh the measure's two components, as
//! single-precision bit patterns.
use vstd::prelude::*;
use crate::ieee::Real;

verus! {

/// Coefficient-of-variation divisor (2.0): a variation of 2 gives the full score.
pub const CV_DIVISOR: Real = 0x4000_0000;

/// Burst-ratio divisor (14.0): a burst ratio of 15 gives the full score.
pub const BURST_DIVISOR: Real = 0x4160_0000;

/// Weight of the variation component (0.6).
pub const CV_WEIGHT: Real = 0x3F19_999A;

/// Weight of the burst component (0.4).
pub const BURST_WEIGHT: Real = 0x3ECC_CCCD;


/// Timestamps in ascending order: a run whose first timestamp is later than
/// its last (as a newest-first read gives it) is reversed.
pub open spec fn oldest_first(ts: Seq<u64>) -> Seq<u64> {
    if ts.len() > 0 && ts[0] > ts.last() {
        ts.reverse()
    } else {
        ts
    }
}

/// The gaps between consecutive timestamps, in milliseconds; a timestamp
/// earlier than the one before it gives a gap of zero.
pub open spec fn gaps(s: Seq<u64>) -> Seq<u64> {
    Seq::new((s.len() - 1) as nat, |i: int| if s[i + 1] >= s[i] { (s[i + 1] - s[i]) as u64 } else { 0u64 })
}

/// The inter-arrival times of a run of millisecond timestamps: the gaps
/// between them in ascending order (see `oldest_first` and `gaps`); none for
/// fewer than two timestamps.
pub fn inter_arrival_millis(timestamps: &Vec<u64>) -> (r: Vec<u64>)
    ensures
        timestamps@.len() < 2 ==> r@ == Seq::<u64>::empty(),
        timestamps@.len() >= 2 ==> r@ == gaps(oldest_first(timestamps@)),
{
    let n = timestamps.len();
    let mut out: Vec<u64> = Vec::new();
    if n < 2 {
        return out;
    }
    let reversed = timestamps[0] > timestamps[n - 1];
    let ghost s = oldest_first(timestamps@);
    proof {
        assert(s.len() == n);
        assert forall|k: int| 0 <= k < n implies #[trigger] s[k] == if reversed { timestamps@[n - 1 - k] } else { timestamps@[k] } by {}
    }
    let mut i: usize = 1;
    while i < n
        invariant
            1 <= i <= n,
            n == timestamps@.len(),
            n >= 2,
            s == oldest_first(timestamps@),
            s.len() == n,
            forall|k: int| 0 <= k < n ==> #[trigger] s[k] == if reversed { timestamps@[n - 1 - k] } else { timestamps@[k] },
            out@.len() == i - 1,
            forall|k: int| 0 <= k < i - 1 ==> #[trigger] out@[k] == (if s[k + 1] >= s[k] { (s[k + 1] - s[k]) as u64 } else { 0u64 }),
        decreases n - i,
    {
        let (prev, cur) = if reversed {
            (timestamps[n - i], timestamps[n - 1 - i])
        } else {
            (timestamps[i - 1], timestamps[i])
        };
        proof {
            assert(s[i - 1] == prev);
            assert(s[i as int] == cur);
        }
        out.push(cur.saturating_sub(prev));
        i += 1;
    }
    proof {
        assert(out@ =~= gaps(s));
    }
    out
}

} // verus!
