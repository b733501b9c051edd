//! Conversion of default-probability breakpoints into the entropy
//! coder's working representation, and the invariant every table row
//! obeys.

use vstd::prelude::*;

verus! {

/// One more than the largest breakpoint: the implicit final cumulative
/// count of every row.
pub const CDF_TOTAL: u16 = 32768;

/// A row is a legal breakpoint list: non-decreasing, below the implicit
/// final total.
pub open spec fn spec_valid_breakpoints(b: Seq<u16>) -> bool {
    &&& forall|i: int| 0 <= i < b.len() ==> (#[trigger] b[i]) < 32768
    &&& forall|i: int| 0 <= i < b.len() - 1 ==> (#[trigger] b[i]) <= b[i + 1]
}

/// The coder's working representation of a breakpoint row: each slot
/// holds the count remaining above the breakpoint, and a final zero
/// closes the row.
pub open spec fn spec_cdf_row(b: Seq<u16>) -> Seq<u16> {
    Seq::new(b.len() + 1, |i: int| if i < b.len() { (32768 - b[i]) as u16 } else { 0u16 })
}

/// Convert one breakpoint row into the working representation, after
/// checking it is legal: `None` exactly on an illegal row.
pub fn build_cdf(breakpoints: &[u16]) -> (r: Option<Vec<u16>>)
    ensures
        r is Some <==> spec_valid_breakpoints(breakpoints@),
        r matches Some(v) ==> v@ == spec_cdf_row(breakpoints@),
{
    let n = breakpoints.len();
    let mut i: usize = 0;
    while i < n
        invariant
            i <= n,
            n == breakpoints@.len(),
            forall|k: int| 0 <= k < i ==> (#[trigger] breakpoints@[k]) < 32768,
            forall|k: int|
                0 <= k < i && k + 1 < n ==> (#[trigger] breakpoints@[k]) <= breakpoints@[k + 1],
        decreases n - i,
    {
        if breakpoints[i] >= 32768 {
            return None;
        }
        if i + 1 < n {
            if breakpoints[i] > breakpoints[i + 1] {
                return None;
            }
        }
        i = i + 1;
    }
    let mut v: Vec<u16> = Vec::new();
    let mut i: usize = 0;
    while i < n
        invariant
            i <= n,
            n == breakpoints@.len(),
            v@.len() == i,
            forall|k: int| 0 <= k < n ==> (#[trigger] breakpoints@[k]) < 32768,
            forall|k: int| 0 <= k < i ==> v@[k] == 32768 - breakpoints@[k],
        decreases n - i,
    {
        v.push(32768 - breakpoints[i]);
        i = i + 1;
    }
    v.push(0);
    proof {
        assert(v@ =~= spec_cdf_row(breakpoints@));
    }
    Some(v)
}

/// A converted row is non-increasing and ends at zero: the shape the
/// adaptive coder relies on, whatever the breakpoints were.
pub proof fn lemma_cdf_row_monotone(b: Seq<u16>)
    requires
        spec_valid_breakpoints(b),
    ensures
        forall|i: int, j: int|
            0 <= i <= j < spec_cdf_row(b).len() ==> spec_cdf_row(b)[i] >= spec_cdf_row(b)[j],
        spec_cdf_row(b)[spec_cdf_row(b).len() - 1] == 0,
{
    let r = spec_cdf_row(b);
    assert forall|i: int, j: int| 0 <= i <= j < r.len() implies r[i] >= r[j] by {
        if j < b.len() {
            lemma_breakpoints_sorted(b, i, j);
        }
    }
}

/// Non-decreasing adjacent breakpoints give a non-decreasing row.
proof fn lemma_breakpoints_sorted(b: Seq<u16>, i: int, j: int)
    requires
        spec_valid_breakpoints(b),
        0 <= i <= j < b.len(),
    ensures
        b[i] <= b[j],
    decreases j - i,
{
    if i < j {
        lemma_breakpoints_sorted(b, i, j - 1);
    }
}

} // verus!
