use flowtrack::catalog::{aggregate, Aggregator, FeatureCatalog, FeatureClass, FeatureValue};
use flowtrack::counters::PerCoreCounters;
use flowtrack::stats::{distinct_count, median, sort_samples, Ratio};

fn exact(num: u128, den: u128) -> FeatureValue {
    FeatureValue::Exact(Ratio { num, den })
}

#[test]
fn quantiles_of_known_sample_set() {
    let v: Vec<u32> = vec![1, 2, 3, 4, 5];
    let n = v.len();
    assert_eq!(aggregate(Aggregator::Med, &v, n), exact(6, 2)); // median 3
    assert_eq!(aggregate(Aggregator::Q1, &v, n), exact(4, 2)); // q1 2
    assert_eq!(aggregate(Aggregator::Q3, &v, n), exact(8, 2)); // q3 4
    assert_eq!(aggregate(Aggregator::Min, &v, n), exact(1, 1));
    assert_eq!(aggregate(Aggregator::Max, &v, n), exact(5, 1));
    assert_eq!(aggregate(Aggregator::Sum, &v, n), exact(15, 1));
    assert_eq!(aggregate(Aggregator::Mean, &v, n), exact(15, 5)); // mean 3.0
    assert_eq!(aggregate(Aggregator::Dist, &v, n), exact(5, 1));
    assert_eq!(aggregate(Aggregator::First, &v, n), exact(1, 1));
}

#[test]
fn quantiles_are_order_independent() {
    let v: Vec<u32> = vec![5, 3, 1, 2, 4];
    let n = v.len();
    assert_eq!(aggregate(Aggregator::Med, &v, n), exact(6, 2));
    assert_eq!(aggregate(Aggregator::Q1, &v, n), exact(4, 2));
    assert_eq!(aggregate(Aggregator::Q3, &v, n), exact(8, 2));
    assert_eq!(aggregate(Aggregator::Min, &v, n), exact(1, 1));
    assert_eq!(aggregate(Aggregator::Max, &v, n), exact(5, 1));
    // first is positional, not sorted
    assert_eq!(aggregate(Aggregator::First, &v, n), exact(5, 1));
}

#[test]
fn even_length_median_is_mean_of_central_pair() {
    let v: Vec<u32> = vec![1, 2, 3, 4];
    let n = v.len();
    assert_eq!(aggregate(Aggregator::Med, &v, n), exact(5, 2)); // 2.5
    assert_eq!(aggregate(Aggregator::Q1, &v, n), exact(3, 2)); // 1.5
    assert_eq!(aggregate(Aggregator::Q3, &v, n), exact(7, 2)); // 3.5
}

#[test]
fn repeated_values_collapse_in_distinct_count() {
    let v: Vec<u32> = vec![7, 7, 7];
    assert_eq!(aggregate(Aggregator::Dist, &v, 3), exact(1, 1));
    assert_eq!(aggregate(Aggregator::Med, &v, 3), exact(14, 2));
    let w: Vec<u32> = vec![1, 1, 2, 3, 3, 3];
    assert_eq!(distinct_count(&w), 3);
}

#[test]
fn every_aggregator_yields_zero_sentinel_on_empty_input() {
    let v: Vec<u32> = vec![];
    let aggs = [
        Aggregator::Min,
        Aggregator::Q1,
        Aggregator::Med,
        Aggregator::Q3,
        Aggregator::Max,
        Aggregator::Mean,
        Aggregator::Std,
        Aggregator::Skew,
        Aggregator::Kurt,
        Aggregator::Sum,
        Aggregator::Dist,
        Aggregator::First,
    ];
    for agg in aggs {
        assert_eq!(aggregate(agg, &v, 0), exact(0, 1));
    }
}

#[test]
fn moment_aggregators_produce_exact_power_sums() {
    let v: Vec<u32> = vec![1, 2, 3, 4, 5];
    let expected = FeatureValue::Moments { count: 5, sum: 15, sum2: 55, sum3: 225, sum4: 979 };
    assert_eq!(aggregate(Aggregator::Std, &v, 5), expected);
    assert_eq!(aggregate(Aggregator::Skew, &v, 5), expected);
    assert_eq!(aggregate(Aggregator::Kurt, &v, 5), expected);
}

#[test]
fn truncation_aggregates_only_the_prefix() {
    let v: Vec<u32> = vec![10, 20, 30, 40];
    assert_eq!(aggregate(Aggregator::Sum, &v, 2), exact(30, 1));
    assert_eq!(aggregate(Aggregator::Max, &v, 3), exact(30, 1));
    assert_eq!(aggregate(Aggregator::Sum, &v, 0), exact(0, 1));
}

#[test]
fn median_function_matches_the_rule() {
    let v: Vec<u32> = vec![4, 1, 3, 2, 5];
    assert_eq!(median(&v), Some(Ratio { num: 6, den: 2 }));
    let empty: Vec<u32> = vec![];
    assert_eq!(median(&empty), None);
    let two: Vec<u32> = vec![9, 3];
    assert_eq!(median(&two), Some(Ratio { num: 12, den: 2 }));
}

#[test]
fn sort_samples_orders_ascending() {
    let v: Vec<u32> = vec![3, 1, 2, 1];
    assert_eq!(sort_samples(&v), vec![1, 1, 2, 3]);
}

#[test]
fn full_catalog_is_the_stable_cross_product() {
    let cat = FeatureCatalog::full();
    assert_eq!(cat.pairs.len(), 360);
    assert_eq!(cat.pairs[0].class, FeatureClass::PacketIat);
    assert_eq!(cat.pairs[0].agg, Aggregator::Min);
    assert_eq!(cat.pairs[11].class, FeatureClass::PacketIat);
    assert_eq!(cat.pairs[11].agg, Aggregator::First);
    assert_eq!(cat.pairs[12].class, FeatureClass::IpIhl);
    assert_eq!(cat.pairs[12].agg, Aggregator::Min);
    assert_eq!(cat.pairs[359].class, FeatureClass::TcpUrgentPtr);
    assert_eq!(cat.pairs[359].agg, Aggregator::First);
    // two builds agree: the order is fixed by the configuration alone
    let again = FeatureCatalog::full();
    assert_eq!(cat.pairs, again.pairs);
}

#[test]
fn per_core_counters_sum_at_the_end() {
    let mut c = PerCoreCounters::new(4);
    c.increment(0);
    c.increment(3);
    c.increment(3);
    assert_eq!(c.total(), 3);
    assert_eq!(c.slots, vec![1, 0, 0, 2]);
}
