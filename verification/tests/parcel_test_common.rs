use beatsmr::parcel_test_common::{
    check_cluster, check_cluster_intervals, check_decoded_cluster, check_decoded_intervals,
    check_interval_list, check_parcel_set, interval_cluster_output_floats, interval_output_floats,
    CaseError, CaseInputError, DecodeError, Tally, Verdict, MAX_PARCEL_INTERVALS,
};

#[test]
fn output_float_counts() {
    assert_eq!(interval_output_floats(), 301);
    assert_eq!(interval_cluster_output_floats(), 202);
    assert_eq!(MAX_PARCEL_INTERVALS, 100);
}

#[test]
fn interval_list_limits() {
    assert_eq!(check_interval_list(0), Ok(()));
    assert_eq!(check_interval_list(100), Ok(()));
    assert_eq!(check_interval_list(101), Err(CaseInputError::TooManyIntervals { count: 101 }));
    assert_eq!(check_cluster_intervals(50), Ok(()));
    assert_eq!(
        check_cluster_intervals(51),
        Err(CaseInputError::TooManyInflectionPoints { intervals: 51 })
    );
    assert_eq!(
        check_cluster_intervals(usize::MAX),
        Err(CaseInputError::TooManyInflectionPoints { intervals: usize::MAX })
    );
}

#[test]
fn cluster_limits() {
    assert_eq!(check_cluster(100, 100), Ok(()));
    assert_eq!(check_cluster(101, 200), Err(CaseInputError::TooManyPoints { count: 101 }));
    assert_eq!(check_cluster(5, 101), Err(CaseInputError::TooManyParcelIndices { count: 101 }));
}

#[test]
fn parcel_set_limits() {
    assert_eq!(check_parcel_set(3, &[2, 0, 1]), Ok(()));
    assert_eq!(check_parcel_set(1, &[]), Ok(()));
    assert_eq!(
        check_parcel_set(3, &[2, 5, 3]),
        Err(CaseInputError::SetIndexOutOfRange { index: 5, parcels: 3 })
    );
    assert_eq!(check_parcel_set(101, &[0]), Err(CaseInputError::TooManyParcels { count: 101 }));
    let big = vec![0u32; 101];
    assert_eq!(check_parcel_set(1, &big), Err(CaseInputError::SetTooLarge { count: 101 }));
}

#[test]
fn decoded_counts() {
    assert_eq!(check_decoded_intervals(100), Ok(()));
    assert_eq!(check_decoded_intervals(101), Err(DecodeError::TooManyIntervals { count: 101 }));
    assert_eq!(check_decoded_cluster(100, 100), Ok(()));
    assert_eq!(check_decoded_cluster(101, 0), Err(DecodeError::ClusterTooLarge { size: 101 }));
    assert_eq!(check_decoded_cluster(4, 150), Err(DecodeError::TooManyParcels { count: 150 }));
}

#[test]
fn tally_counts_each_outcome() {
    let mut tally = Tally::new();
    assert_eq!(tally.record(&Ok(())), Verdict::Pass);
    assert_eq!(tally.record(&Err(CaseError::Mismatch("expected 1".to_string()))), Verdict::Fail);
    assert_eq!(tally.record(&Err(CaseError::Broken("no buffer".to_string()))), Verdict::Error);
    assert_eq!(tally.record(&Ok(())), Verdict::Pass);
    assert_eq!(tally, Tally { passed: 2, failed: 2 });
    assert_eq!(tally.total(), 4);
}
