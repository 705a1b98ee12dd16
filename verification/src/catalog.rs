//! The feature catalog: named feature classes crossed with named
//! aggregators.
//!
//! A feature class is a raw measurable quantity sampled once per packet; an
//! aggregator reduces one class's sample sequence to a single value. Which
//! `(class, aggregator)` pairs a deployment emits is selected once at
//! configuration time, not per packet, and the output vector's length and
//! order are fixed by that configuration across all flows it processes.

use vstd::prelude::*;
use crate::stats::{
    distinct_count, first_sample, lemma_sort_spec_ensures, lower_half, max_sample, max_spec,
    median_doubled, median_doubled_of_range, min_sample, min_spec, power_sums, q1_doubled,
    q3_doubled, sort_samples, sort_spec, sum2_sat, sum3_sat, sum4_sat, sum64_sat, sum_samples,
    take_prefix, upper_half, Ratio,
};

verus! {

/// A raw per-packet quantity that can be sampled into a flow's per-class
/// sequence: the packet's arrival offset, or one field of its IPv4 or TCP
/// header.
#[derive(Clone, Copy, Debug, PartialEq, Eq, Structural)]
pub enum FeatureClass {
    PacketIat,
    IpIhl,
    IpDscp,
    IpEcn,
    IpTotalLength,
    IpId,
    IpFlagsRf,
    IpFlagsDf,
    IpFlagsMf,
    IpFragmentOffset,
    IpTtl,
    IpProtocol,
    IpHeaderChecksum,
    TcpSrcPort,
    TcpDstPort,
    TcpSeqNum,
    TcpAckNum,
    TcpDataOffset,
    TcpReserved,
    TcpFlagsCwr,
    TcpFlagsEce,
    TcpFlagsUrg,
    TcpFlagsAck,
    TcpFlagsPsh,
    TcpFlagsRst,
    TcpFlagsSyn,
    TcpFlagsFin,
    TcpWindowSize,
    TcpChecksum,
    TcpUrgentPtr,
}

/// A function reducing one class's sample sequence to a single value.
#[derive(Clone, Copy, Debug, PartialEq, Eq, Structural)]
pub enum Aggregator {
    Min,
    Q1,
    Med,
    Q3,
    Max,
    Mean,
    Std,
    Skew,
    Kurt,
    Sum,
    Dist,
    First,
}

/// One aggregated feature value.
///
/// Samples are unsigned integers, so most aggregates are exact rationals and
/// are produced as such. The moment-based aggregators (standard deviation,
/// skewness, kurtosis) are real-valued functions of the first four power
/// sums; those sums are produced exactly, and the floating-point rendering
/// is the embedding program's.
#[derive(Clone, Copy, Debug, PartialEq, Eq, Structural)]
pub enum FeatureValue {
    Exact(Ratio),
    Moments { count: u64, sum: u64, sum2: u128, sum3: u128, sum4: u128 },
}

/// The value of one aggregator over one sample sequence. An empty sequence
/// yields the zero sentinel for every aggregator, never an error.
pub open spec fn spec_aggregate(agg: Aggregator, s: Seq<u32>) -> FeatureValue {
    if s.len() == 0 {
        FeatureValue::Exact(Ratio::spec_zero())
    } else {
        match agg {
            Aggregator::Min => FeatureValue::Exact(Ratio::spec_whole(min_spec(s) as u128)),
            Aggregator::Q1 => FeatureValue::Exact(
                Ratio { num: q1_doubled(sort_spec(s)) as u128, den: 2 },
            ),
            Aggregator::Med => FeatureValue::Exact(
                Ratio { num: median_doubled(sort_spec(s)) as u128, den: 2 },
            ),
            Aggregator::Q3 => FeatureValue::Exact(
                Ratio { num: q3_doubled(sort_spec(s)) as u128, den: 2 },
            ),
            Aggregator::Max => FeatureValue::Exact(Ratio::spec_whole(max_spec(s) as u128)),
            Aggregator::Mean => FeatureValue::Exact(
                Ratio { num: sum64_sat(s) as u128, den: s.len() as u128 },
            ),
            Aggregator::Sum => FeatureValue::Exact(Ratio::spec_whole(sum64_sat(s) as u128)),
            Aggregator::Dist => FeatureValue::Exact(Ratio::spec_whole(s.to_set().len() as u128)),
            Aggregator::First => FeatureValue::Exact(Ratio::spec_whole(s[0] as u128)),
            Aggregator::Std | Aggregator::Skew | Aggregator::Kurt => FeatureValue::Moments {
                count: s.len() as u64,
                sum: sum64_sat(s),
                sum2: sum2_sat(s),
                sum3: sum3_sat(s),
                sum4: sum4_sat(s),
            },
        }
    }
}

/// Computes one aggregator over the first `n_pkts` samples of `samples`.
pub fn aggregate(agg: Aggregator, samples: &Vec<u32>, n_pkts: usize) -> (r: FeatureValue)
    requires
        n_pkts <= samples@.len(),
    ensures
        r == spec_aggregate(agg, samples@.take(n_pkts as int)),
{
    let p = take_prefix(samples, n_pkts);
    let ghost s = samples@.take(n_pkts as int);
    if p.len() == 0 {
        return FeatureValue::Exact(Ratio::zero());
    }
    match agg {
        Aggregator::Min => FeatureValue::Exact(Ratio::whole(min_sample(&p) as u64)),
        Aggregator::Max => FeatureValue::Exact(Ratio::whole(max_sample(&p) as u64)),
        Aggregator::First => FeatureValue::Exact(Ratio::whole(first_sample(&p) as u64)),
        Aggregator::Sum => FeatureValue::Exact(Ratio::whole(sum_samples(&p))),
        Aggregator::Mean => {
            let total = sum_samples(&p);
            FeatureValue::Exact(Ratio { num: total as u128, den: p.len() as u128 })
        },
        Aggregator::Dist => {
            let d = distinct_count(&p);
            FeatureValue::Exact(Ratio { num: d as u128, den: 1 })
        },
        Aggregator::Q1 => {
            let t = sort_samples(&p);
            proof {
                lemma_sort_spec_ensures(s);
                assert(lower_half(t@) =~= t@.subrange(0, ((t@.len() + 1) / 2) as int));
            }
            let hi = t.len() / 2 + t.len() % 2;
            proof {
                assert(hi == (t@.len() + 1) / 2);
            }
            let m = median_doubled_of_range(&t, 0, hi);
            FeatureValue::Exact(Ratio { num: m as u128, den: 2 })
        },
        Aggregator::Med => {
            let t = sort_samples(&p);
            proof {
                lemma_sort_spec_ensures(s);
                assert(t@ =~= t@.subrange(0, t@.len() as int));
            }
            let m = median_doubled_of_range(&t, 0, t.len());
            FeatureValue::Exact(Ratio { num: m as u128, den: 2 })
        },
        Aggregator::Q3 => {
            let t = sort_samples(&p);
            proof {
                lemma_sort_spec_ensures(s);
                assert(upper_half(t@) =~= t@.subrange((t@.len() / 2) as int, t@.len() as int));
            }
            let lo = t.len() / 2;
            let m = median_doubled_of_range(&t, lo, t.len());
            FeatureValue::Exact(Ratio { num: m as u128, den: 2 })
        },
        Aggregator::Std | Aggregator::Skew | Aggregator::Kurt => {
            let sums = power_sums(&p);
            FeatureValue::Moments {
                count: p.len() as u64,
                sum: sums.0,
                sum2: sums.1,
                sum3: sums.2,
                sum4: sums.3,
            }
        },
    }
}

/// One configured output column: a feature class paired with an aggregator.
#[derive(Clone, Copy, Debug, PartialEq, Eq, Structural)]
pub struct FeaturePair {
    pub class: FeatureClass,
    pub agg: Aggregator,
}

/// The ordered list of `(class, aggregator)` pairs one running configuration
/// emits. The order of `pairs` is the order of every produced feature
/// vector, so consumers can index features positionally.
#[derive(Clone, Debug)]
pub struct FeatureCatalog {
    pub pairs: Vec<FeaturePair>,
}

/// The feature classes in schema order.
pub open spec fn class_list() -> Seq<FeatureClass> {
    seq![
        FeatureClass::PacketIat,
        FeatureClass::IpIhl,
        FeatureClass::IpDscp,
        FeatureClass::IpEcn,
        FeatureClass::IpTotalLength,
        FeatureClass::IpId,
        FeatureClass::IpFlagsRf,
        FeatureClass::IpFlagsDf,
        FeatureClass::IpFlagsMf,
        FeatureClass::IpFragmentOffset,
        FeatureClass::IpTtl,
        FeatureClass::IpProtocol,
        FeatureClass::IpHeaderChecksum,
        FeatureClass::TcpSrcPort,
        FeatureClass::TcpDstPort,
        FeatureClass::TcpSeqNum,
        FeatureClass::TcpAckNum,
        FeatureClass::TcpDataOffset,
        FeatureClass::TcpReserved,
        FeatureClass::TcpFlagsCwr,
        FeatureClass::TcpFlagsEce,
        FeatureClass::TcpFlagsUrg,
        FeatureClass::TcpFlagsAck,
        FeatureClass::TcpFlagsPsh,
        FeatureClass::TcpFlagsRst,
        FeatureClass::TcpFlagsSyn,
        FeatureClass::TcpFlagsFin,
        FeatureClass::TcpWindowSize,
        FeatureClass::TcpChecksum,
        FeatureClass::TcpUrgentPtr,
    ]
}

/// The aggregators in schema order.
pub open spec fn agg_list() -> Seq<Aggregator> {
    seq![
        Aggregator::Min,
        Aggregator::Q1,
        Aggregator::Med,
        Aggregator::Q3,
        Aggregator::Max,
        Aggregator::Mean,
        Aggregator::Std,
        Aggregator::Skew,
        Aggregator::Kurt,
        Aggregator::Sum,
        Aggregator::Dist,
        Aggregator::First,
    ]
}

/// The pair at one position of the full cross product: classes major,
/// aggregators minor.
pub open spec fn full_pair_at(i: int) -> FeaturePair {
    FeaturePair { class: class_list()[i / 12], agg: agg_list()[i % 12] }
}

/// The feature classes in schema order.
pub fn all_classes() -> (r: Vec<FeatureClass>)
    ensures
        r@ == class_list(),
{
    let mut v: Vec<FeatureClass> = Vec::new();
    v.push(FeatureClass::PacketIat);
    v.push(FeatureClass::IpIhl);
    v.push(FeatureClass::IpDscp);
    v.push(FeatureClass::IpEcn);
    v.push(FeatureClass::IpTotalLength);
    v.push(FeatureClass::IpId);
    v.push(FeatureClass::IpFlagsRf);
    v.push(FeatureClass::IpFlagsDf);
    v.push(FeatureClass::IpFlagsMf);
    v.push(FeatureClass::IpFragmentOffset);
    v.push(FeatureClass::IpTtl);
    v.push(FeatureClass::IpProtocol);
    v.push(FeatureClass::IpHeaderChecksum);
    v.push(FeatureClass::TcpSrcPort);
    v.push(FeatureClass::TcpDstPort);
    v.push(FeatureClass::TcpSeqNum);
    v.push(FeatureClass::TcpAckNum);
    v.push(FeatureClass::TcpDataOffset);
    v.push(FeatureClass::TcpReserved);
    v.push(FeatureClass::TcpFlagsCwr);
    v.push(FeatureClass::TcpFlagsEce);
    v.push(FeatureClass::TcpFlagsUrg);
    v.push(FeatureClass::TcpFlagsAck);
    v.push(FeatureClass::TcpFlagsPsh);
    v.push(FeatureClass::TcpFlagsRst);
    v.push(FeatureClass::TcpFlagsSyn);
    v.push(FeatureClass::TcpFlagsFin);
    v.push(FeatureClass::TcpWindowSize);
    v.push(FeatureClass::TcpChecksum);
    v.push(FeatureClass::TcpUrgentPtr);
    proof {
        assert(v@ =~= class_list());
    }
    v
}

/// The aggregators in schema order.
pub fn all_aggregators() -> (r: Vec<Aggregator>)
    ensures
        r@ == agg_list(),
{
    let mut v: Vec<Aggregator> = Vec::new();
    v.push(Aggregator::Min);
    v.push(Aggregator::Q1);
    v.push(Aggregator::Med);
    v.push(Aggregator::Q3);
    v.push(Aggregator::Max);
    v.push(Aggregator::Mean);
    v.push(Aggregator::Std);
    v.push(Aggregator::Skew);
    v.push(Aggregator::Kurt);
    v.push(Aggregator::Sum);
    v.push(Aggregator::Dist);
    v.push(Aggregator::First);
    proof {
        assert(v@ =~= agg_list());
    }
    v
}

impl FeatureCatalog {
    pub fn new(pairs: Vec<FeaturePair>) -> (r: FeatureCatalog)
        ensures
            r.pairs@ == pairs@,
    {
        FeatureCatalog { pairs }
    }

    /// The full cross product of every class with every aggregator, classes
    /// major, aggregators minor: the complete fixed schema.
    pub fn full() -> (r: FeatureCatalog)
        ensures
            r.pairs@.len() == class_list().len() * agg_list().len(),
            forall|i: int| 0 <= i < r.pairs@.len() ==> #[trigger] r.pairs@[i] == full_pair_at(i),
    {
        let classes = all_classes();
        let aggs = all_aggregators();
        let mut pairs: Vec<FeaturePair> = Vec::new();
        let nc = classes.len();
        let na = aggs.len();
        for ci in 0..nc
            invariant
                nc == class_list().len(),
                na == agg_list().len(),
                classes@ == class_list(),
                aggs@ == agg_list(),
                pairs@.len() == ci * na,
                forall|k: int| 0 <= k < pairs@.len() ==> #[trigger] pairs@[k] == full_pair_at(k),
        {
            for ai in 0..na
                invariant
                    nc == class_list().len(),
                    na == agg_list().len(),
                    ci < nc,
                    classes@ == class_list(),
                    aggs@ == agg_list(),
                    pairs@.len() == ci * na + ai,
                    forall|k: int| 0 <= k < pairs@.len() ==> #[trigger] pairs@[k] == full_pair_at(
                        k,
                    ),
            {
                let ghost k = pairs@.len() as int;
                pairs.push(FeaturePair { class: classes[ci], agg: aggs[ai] });
                proof {
                    assert(k / 12 == ci && k % 12 == ai) by (nonlinear_arith)
                        requires
                            k == ci * 12 + ai,
                            0 <= ci,
                            0 <= ai < 12,
                    ;
                }
            }
            proof {
                assert((ci + 1) * na == ci * na + na) by (nonlinear_arith);
            }
        }
        proof {
            assert(pairs@.len() == class_list().len() * agg_list().len()) by (nonlinear_arith)
                requires
                    pairs@.len() == nc * na,
                    nc == class_list().len(),
                    na == agg_list().len(),
            ;
        }
        FeatureCatalog { pairs }
    }
}

} // verus!
