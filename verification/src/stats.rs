//! Exact statistics over integer sample sequences.
//!
//! Every sample a flow records is an unsigned integer read from a packet
//! header, so each aggregate either is an integer, or is an exact rational
//! number (a mean, or the midpoint of two central elements). Aggregates are
//! therefore computed and stated here as exact values; rendering them as
//! floating-point numbers is left to the embedding program.

use vstd::prelude::*;
use vstd::relations::{sorted_by, total_ordering};
use vstd::seq_lib::lemma_sorted_unique;

verus! {

/// An exact non-negative rational number. Values are not reduced to lowest
/// terms: contracts state the exact numerator and denominator produced.
#[derive(Clone, Copy, Debug, PartialEq, Eq, Structural)]
pub struct Ratio {
    pub num: u128,
    pub den: u128,
}

impl Ratio {
    /// The sentinel produced by every aggregator over an empty sample
    /// sequence: exactly zero.
    pub open spec fn spec_zero() -> Ratio {
        Ratio { num: 0, den: 1 }
    }

    pub open spec fn spec_whole(n: u128) -> Ratio {
        Ratio { num: n, den: 1 }
    }

    pub fn zero() -> (r: Ratio)
        ensures
            r == Ratio::spec_zero(),
    {
        Ratio { num: 0, den: 1 }
    }

    pub fn whole(n: u64) -> (r: Ratio)
        ensures
            r == Ratio::spec_whole(n as u128),
    {
        Ratio { num: n as u128, den: 1 }
    }
}

// ---------------------------------------------------------------------------
// Sorting. Quantiles are defined over the canonical ascending ordering of a
// sample sequence, `sort_spec`.
// ---------------------------------------------------------------------------

pub open spec fn leq32() -> spec_fn(u32, u32) -> bool {
    |a: u32, b: u32| a <= b
}

/// The sample sequence in ascending order.
pub open spec fn sort_spec(s: Seq<u32>) -> Seq<u32> {
    s.sort_by(leq32())
}

pub proof fn lemma_leq32_total()
    ensures
        total_ordering(leq32()),
{
}

pub proof fn lemma_sort_spec_ensures(s: Seq<u32>)
    ensures
        sort_spec(s).to_multiset() == s.to_multiset(),
        sorted_by(sort_spec(s), leq32()),
        sort_spec(s).len() == s.len(),
{
    lemma_leq32_total();
    s.lemma_sort_by_ensures(leq32());
    broadcast use vstd::seq_lib::group_to_multiset_ensures;

    assert(s.to_multiset().len() == s.len());
    assert(sort_spec(s).to_multiset().len() == sort_spec(s).len());
}

/// Returns the elements of `v` in ascending order.
pub fn sort_samples(v: &Vec<u32>) -> (r: Vec<u32>)
    ensures
        r@ == sort_spec(v@),
{
    let mut r: Vec<u32> = Vec::new();
    let n = v.len();
    proof {
        assert(v@.take(0) =~= r@);
    }
    for i in 0..n
        invariant
            n == v@.len(),
            sorted_by(r@, leq32()),
            r@.to_multiset() == v@.take(i as int).to_multiset(),
            r@.len() == i,
    {
        let x = v[i];
        let mut j: usize = 0;
        while j < r.len() && r[j] <= x
            invariant
                j <= r@.len(),
                forall|k: int| 0 <= k < j ==> r@[k] <= x,
            decreases r@.len() - j,
        {
            j += 1;
        }
        let ghost old_r = r@;
        r.insert(j, x);
        proof {
            broadcast use vstd::seq_lib::to_multiset_insert;
            broadcast use vstd::seq_lib::group_to_multiset_ensures;

            assert(v@.take(i + 1).drop_last() =~= v@.take(i as int));
            assert(v@.take(i + 1) =~= v@.take(i as int).push(x));
            assert(r@.to_multiset() == v@.take(i + 1).to_multiset());
            assert forall|a: int, b: int| 0 <= a < b < r@.len() implies leq32()(
                r@[a],
                r@[b],
            ) by {
                if b < j {
                    assert(r@[a] == old_r[a] && r@[b] == old_r[b]);
                } else if a < j && b == j {
                    assert(r@[a] == old_r[a] && r@[b] == x);
                } else if a < j && b > j {
                    assert(r@[a] == old_r[a] && r@[b] == old_r[b - 1]);
                } else if a == j {
                    // x goes before every element the scan stopped at
                    assert(r@[b] == old_r[b - 1]);
                    assert(!(old_r[j as int] <= x));
                    if b - 1 > j {
                        assert(leq32()(old_r[j as int], old_r[b - 1]));
                    }
                } else {
                    assert(r@[a] == old_r[a - 1] && r@[b] == old_r[b - 1]);
                }
            }
        }
    }
    proof {
        lemma_leq32_total();
        v@.lemma_sort_by_ensures(leq32());
        assert(v@.take(n as int) =~= v@);
        lemma_sorted_unique(r@, sort_spec(v@), leq32());
    }
    r
}

// ---------------------------------------------------------------------------
// Linear scans: minimum, maximum, first element.
// ---------------------------------------------------------------------------

pub open spec fn min_spec(s: Seq<u32>) -> u32
    recommends
        s.len() > 0,
    decreases s.len(),
{
    if s.len() <= 1 {
        s[0]
    } else if s.last() < min_spec(s.drop_last()) {
        s.last()
    } else {
        min_spec(s.drop_last())
    }
}

pub open spec fn max_spec(s: Seq<u32>) -> u32
    recommends
        s.len() > 0,
    decreases s.len(),
{
    if s.len() <= 1 {
        s[0]
    } else if s.last() > max_spec(s.drop_last()) {
        s.last()
    } else {
        max_spec(s.drop_last())
    }
}

pub fn min_sample(v: &Vec<u32>) -> (r: u32)
    requires
        v@.len() > 0,
    ensures
        r == min_spec(v@),
{
    let mut r = v[0];
    let n = v.len();
    for i in 1..n
        invariant
            n == v@.len(),
            0 < i <= n,
            r == min_spec(v@.take(i as int)),
    {
        proof {
            assert(v@.take(i + 1).drop_last() =~= v@.take(i as int));
        }
        if v[i] < r {
            r = v[i];
        }
    }
    proof {
        assert(v@.take(n as int) =~= v@);
    }
    r
}

pub fn max_sample(v: &Vec<u32>) -> (r: u32)
    requires
        v@.len() > 0,
    ensures
        r == max_spec(v@),
{
    let mut r = v[0];
    let n = v.len();
    for i in 1..n
        invariant
            n == v@.len(),
            0 < i <= n,
            r == max_spec(v@.take(i as int)),
    {
        proof {
            assert(v@.take(i + 1).drop_last() =~= v@.take(i as int));
        }
        if v[i] > r {
            r = v[i];
        }
    }
    proof {
        assert(v@.take(n as int) =~= v@);
    }
    r
}

/// Copies the first `n` samples.
pub fn take_prefix(v: &Vec<u32>, n: usize) -> (r: Vec<u32>)
    requires
        n <= v@.len(),
    ensures
        r@ == v@.take(n as int),
{
    let mut r: Vec<u32> = Vec::new();
    proof {
        assert(v@.take(0) =~= r@);
    }
    for i in 0..n
        invariant
            n <= v@.len(),
            r@ == v@.take(i as int),
    {
        r.push(v[i]);
        proof {
            assert(v@.take(i + 1) =~= v@.take(i as int).push(v@[i as int]));
        }
    }
    r
}

pub fn first_sample(v: &Vec<u32>) -> (r: u32)
    requires
        v@.len() > 0,
    ensures
        r == v@[0],
{
    v[0]
}

// ---------------------------------------------------------------------------
// Sums. Sums of unsigned samples saturate instead of wrapping or aborting,
// so finalization of a pathologically long flow still yields a value.
// ---------------------------------------------------------------------------

/// Addition that sticks at the maximum instead of wrapping.
pub open spec fn sat_add32(a: u32, b: u32) -> u32 {
    if a + b > u32::MAX {
        u32::MAX
    } else {
        (a + b) as u32
    }
}

/// Addition that sticks at the maximum instead of wrapping.
pub open spec fn sat_add64(a: u64, b: u64) -> u64 {
    if a + b > u64::MAX {
        u64::MAX
    } else {
        (a + b) as u64
    }
}

/// Subtraction that stops at zero: a duration never comes out negative.
pub open spec fn sat_sub64(a: u64, b: u64) -> u64 {
    if a >= b {
        (a - b) as u64
    } else {
        0
    }
}

/// Left-to-right sum of the samples, each addition saturating at `u64::MAX`.
pub open spec fn sum64_sat(s: Seq<u32>) -> u64
    decreases s.len(),
{
    if s.len() == 0 {
        0u64
    } else {
        let t = sum64_sat(s.drop_last()) as int + s.last() as int;
        if t > u64::MAX {
            u64::MAX
        } else {
            t as u64
        }
    }
}

/// Like `sum64_sat`, over the squares of the samples, saturating at
/// `u128::MAX`.
pub open spec fn sum2_sat(s: Seq<u32>) -> u128
    decreases s.len(),
{
    if s.len() == 0 {
        0u128
    } else {
        let t = sum2_sat(s.drop_last()) as int + s.last() as int * s.last() as int;
        if t > u128::MAX {
            u128::MAX
        } else {
            t as u128
        }
    }
}

/// Like `sum64_sat`, over the cubes of the samples.
pub open spec fn sum3_sat(s: Seq<u32>) -> u128
    decreases s.len(),
{
    if s.len() == 0 {
        0u128
    } else {
        let t = sum3_sat(s.drop_last()) as int + s.last() as int * s.last() as int * s.last()
            as int;
        if t > u128::MAX {
            u128::MAX
        } else {
            t as u128
        }
    }
}

/// Like `sum64_sat`, over the fourth powers of the samples.
pub open spec fn sum4_sat(s: Seq<u32>) -> u128
    decreases s.len(),
{
    if s.len() == 0 {
        0u128
    } else {
        let t = sum4_sat(s.drop_last()) as int + s.last() as int * s.last() as int * s.last()
            as int * s.last() as int;
        if t > u128::MAX {
            u128::MAX
        } else {
            t as u128
        }
    }
}

pub fn sum_samples(v: &Vec<u32>) -> (r: u64)
    ensures
        r == sum64_sat(v@),
{
    let mut r: u64 = 0;
    let n = v.len();
    proof {
        assert(v@.take(0) =~= Seq::<u32>::empty());
    }
    for i in 0..n
        invariant
            n == v@.len(),
            r == sum64_sat(v@.take(i as int)),
    {
        proof {
            assert(v@.take(i + 1).drop_last() =~= v@.take(i as int));
        }
        let x = v[i] as u64;
        r = if r > u64::MAX - x {
            u64::MAX
        } else {
            r + x
        };
    }
    proof {
        assert(v@.take(n as int) =~= v@);
    }
    r
}

/// The first four power sums of the samples: the raw material of the
/// moment-based aggregators (standard deviation, skewness, kurtosis).
pub fn power_sums(v: &Vec<u32>) -> (r: (u64, u128, u128, u128))
    ensures
        r.0 == sum64_sat(v@),
        r.1 == sum2_sat(v@),
        r.2 == sum3_sat(v@),
        r.3 == sum4_sat(v@),
{
    let mut s1: u64 = 0;
    let mut s2: u128 = 0;
    let mut s3: u128 = 0;
    let mut s4: u128 = 0;
    let n = v.len();
    proof {
        assert(v@.take(0) =~= Seq::<u32>::empty());
    }
    for i in 0..n
        invariant
            n == v@.len(),
            s1 == sum64_sat(v@.take(i as int)),
            s2 == sum2_sat(v@.take(i as int)),
            s3 == sum3_sat(v@.take(i as int)),
            s4 == sum4_sat(v@.take(i as int)),
    {
        proof {
            assert(v@.take(i + 1).drop_last() =~= v@.take(i as int));
        }
        let x = v[i];
        let w = x as u128;
        proof {
            assert(w * w <= 0xFFFF_FFFFu128 * 0xFFFF_FFFFu128) by (nonlinear_arith)
                requires
                    w <= 0xFFFF_FFFFu128,
            ;
            assert(w * w * w <= 0xFFFF_FFFFu128 * 0xFFFF_FFFFu128 * 0xFFFF_FFFFu128)
                by (nonlinear_arith)
                requires
                    w <= 0xFFFF_FFFFu128,
            ;
            assert(w * w * w * w <= 0xFFFF_FFFFu128 * 0xFFFF_FFFFu128 * 0xFFFF_FFFFu128
                * 0xFFFF_FFFFu128) by (nonlinear_arith)
                requires
                    w <= 0xFFFF_FFFFu128,
            ;
        }
        let p2 = w * w;
        let p3 = p2 * w;
        let p4 = p3 * w;
        let x64 = x as u64;
        s1 = if s1 > u64::MAX - x64 {
            u64::MAX
        } else {
            s1 + x64
        };
        s2 = if s2 > u128::MAX - p2 {
            u128::MAX
        } else {
            s2 + p2
        };
        s3 = if s3 > u128::MAX - p3 {
            u128::MAX
        } else {
            s3 + p3
        };
        s4 = if s4 > u128::MAX - p4 {
            u128::MAX
        } else {
            s4 + p4
        };
    }
    proof {
        assert(v@.take(n as int) =~= v@);
    }
    (s1, s2, s3, s4)
}

// ---------------------------------------------------------------------------
// Distinct-value count.
// ---------------------------------------------------------------------------

/// The number of distinct values among the samples.
pub fn distinct_count(v: &Vec<u32>) -> (r: usize)
    ensures
        r == v@.to_set().len(),
{
    broadcast use vstd::seq_lib::group_to_multiset_ensures;
    broadcast use vstd::seq_lib::seq_to_set_is_finite;
    broadcast use vstd::set::group_set_axioms;

    let t = sort_samples(v);
    proof {
        lemma_sort_spec_ensures(v@);
    }
    let n = t.len();
    let mut count: usize = 0;
    proof {
        assert(t@.take(0) =~= Seq::<u32>::empty());
        assert(t@.take(0).to_set() =~= Set::<u32>::empty());
    }
    for i in 0..n
        invariant
            n == t@.len(),
            t@ == sort_spec(v@),
            sorted_by(t@, leq32()),
            count == t@.take(i as int).to_set().len(),
            count <= i,
    {
        let is_new = if i == 0 {
            true
        } else {
            t[i] != t[i - 1]
        };
        proof {
            let prefix = t@.take(i as int);
            assert(t@.take(i + 1) =~= prefix.push(t@[i as int]));
            let cur = t@[i as int];
            assert forall|x: u32| t@.take(i + 1).contains(x) <==> (prefix.contains(x) || x
                == cur) by {
                if prefix.contains(x) {
                    let k = choose|k: int| 0 <= k < prefix.len() && prefix[k] == x;
                    assert(t@.take(i + 1)[k] == x);
                }
                if x == cur {
                    assert(t@.take(i + 1)[i as int] == x);
                }
                if t@.take(i + 1).contains(x) {
                    let ext = t@.take(i + 1);
                    let k = choose|k: int| 0 <= k < ext.len() && ext[k] == x;
                    if k < i {
                        assert(prefix[k] == x);
                    }
                }
            }
            assert forall|x: u32| t@.take(i + 1).to_set().contains(x) <==> prefix.to_set().insert(
                cur,
            ).contains(x) by {
                assert(t@.take(i + 1).to_set().contains(x) == t@.take(i + 1).contains(x));
                assert(prefix.to_set().contains(x) == prefix.contains(x));
            }
            assert(t@.take(i + 1).to_set() =~= prefix.to_set().insert(cur));
            if i > 0 && t@[i as int] == t@[i as int - 1] {
                assert(prefix[i as int - 1] == t@[i as int]);
                assert(prefix.contains(t@[i as int]));
            }
            if i > 0 && t@[i as int] != t@[i as int - 1] {
                assert forall|k: int| 0 <= k < i implies t@[k] != t@[i as int] by {
                    if k < i - 1 {
                        assert(leq32()(t@[k], t@[i as int - 1]));
                    }
                    assert(leq32()(t@[i as int - 1], t@[i as int]));
                }
                assert(!prefix.contains(t@[i as int]));
            }
            if i == 0 {
                assert(!prefix.contains(t@[i as int]));
            }
        }
        if is_new {
            count += 1;
        }
    }
    proof {
        assert(t@.take(n as int) =~= t@);
        assert forall|x: u32| t@.contains(x) <==> v@.contains(x) by {
            assert(t@.contains(x) <==> t@.to_multiset().count(x) > 0);
            assert(v@.contains(x) <==> v@.to_multiset().count(x) > 0);
        }
        assert(t@.to_set() =~= v@.to_set());
    }
    count
}

// ---------------------------------------------------------------------------
// Quantiles. The median of a sorted sequence is the middle element for odd
// length, else the mean of the two central elements; the first and third
// quartiles apply the same rule to the lower and upper halves, each half
// including the central element(s). To stay exact, the spec-level value is
// twice the quantile; the produced `Ratio` has denominator two.
// ---------------------------------------------------------------------------

/// Twice the median of the sorted sequence `t`.
pub open spec fn median_doubled(t: Seq<u32>) -> u64
    recommends
        t.len() > 0,
{
    let n = t.len() as int;
    if n % 2 == 1 {
        (2 * t[n / 2]) as u64
    } else {
        (t[n / 2 - 1] + t[n / 2]) as u64
    }
}

/// The lower half of a sorted sequence, including the middle element for odd
/// length.
pub open spec fn lower_half(t: Seq<u32>) -> Seq<u32> {
    t.take(((t.len() + 1) / 2) as int)
}

/// The upper half of a sorted sequence, including the middle element for odd
/// length.
pub open spec fn upper_half(t: Seq<u32>) -> Seq<u32> {
    t.skip((t.len() / 2) as int)
}

pub open spec fn q1_doubled(t: Seq<u32>) -> u64
    recommends
        t.len() > 0,
{
    median_doubled(lower_half(t))
}

pub open spec fn q3_doubled(t: Seq<u32>) -> u64
    recommends
        t.len() > 0,
{
    median_doubled(upper_half(t))
}

/// Twice the median of the sorted slice `t[lo..hi]`.
pub fn median_doubled_of_range(t: &Vec<u32>, lo: usize, hi: usize) -> (r: u64)
    requires
        lo < hi <= t@.len(),
    ensures
        r == median_doubled(t@.subrange(lo as int, hi as int)),
{
    let len = hi - lo;
    let mid = lo + len / 2;
    if len % 2 == 1 {
        2 * (t[mid] as u64)
    } else {
        t[mid - 1] as u64 + t[mid] as u64
    }
}

/// The median of the samples as an exact rational with denominator two, or
/// nothing when no sample was observed.
pub fn median(samples: &Vec<u32>) -> (r: Option<Ratio>)
    ensures
        samples@.len() == 0 <==> r is None,
        r matches Some(q) ==> q == (Ratio {
            num: median_doubled(sort_spec(samples@)) as u128,
            den: 2,
        }),
{
    if samples.len() == 0 {
        return None;
    }
    let t = sort_samples(samples);
    proof {
        lemma_sort_spec_ensures(samples@);
        assert(t@.subrange(0, t@.len() as int) =~= t@);
    }
    let m = median_doubled_of_range(&t, 0, t.len());
    Some(Ratio { num: m as u128, den: 2 })
}

} // verus!
