use ofws_core::clusterer2d::{Clusterer2d, Clusterer2dData, Clusterer2dError};
use ofws_core::size2d::Size2d;
use ofws_core::threshold::OverwriteWithThreshold;
use ofws_core::transformer2d::{Transformer2d, Transformer2dData};

#[test]
fn clusterer_size_mismatch() {
    let size = Size2d::new(3, 2);

    assert_eq!(
        Clusterer2d::new(size, vec![1, 2, 3, 4, 5]).err(),
        Some(Clusterer2dError::SizeMismatch(6, 5))
    );
    assert_eq!(
        Clusterer2d::new(size, vec![1, 2, 3, 4, 5, 6, 7]).err(),
        Some(Clusterer2dError::SizeMismatch(6, 7))
    );
}

#[test]
fn clusterer_too_few_clusters() {
    assert_eq!(
        Clusterer2d::new(Size2d::new(1, 1), vec![1]).err(),
        Some(Clusterer2dError::TooFewClusters(1))
    );
    assert_eq!(
        Clusterer2d::new(Size2d::new(0, 0), vec![]).err(),
        Some(Clusterer2dError::TooFewClusters(0))
    );
}

#[test]
fn clusterer_lookup() {
    let clusterer = Clusterer2d::new(Size2d::new(3, 2), vec![10, 11, 12, 13, 14, 15]).unwrap();

    assert_eq!(clusterer.cluster(0, 0), 10);
    assert_eq!(clusterer.cluster(255, 255), 15);
    assert_eq!(clusterer.cluster(85, 0), 10);
    assert_eq!(clusterer.cluster(86, 0), 11);
    assert_eq!(clusterer.cluster(172, 127), 12);
    assert_eq!(clusterer.cluster(0, 128), 13);
}

#[test]
fn clusterer_round_trip() {
    let data = Clusterer2dData::new(Size2d::new(2, 1), vec![4, 5]);
    let clusterer = data.try_convert().unwrap();
    let back = clusterer.into_data();

    assert_eq!(back, Clusterer2dData::new(Size2d::new(2, 1), vec![4, 5]));
}

#[test]
fn threshold_overwrites() {
    let overwrite = OverwriteWithThreshold::new(42, 100);

    assert_eq!(overwrite.overwrite_if_above(99), 99);
    assert_eq!(overwrite.overwrite_if_above(100), 42);
    assert_eq!(overwrite.overwrite_if_below(100), 42);
    assert_eq!(overwrite.overwrite_if_below(101), 101);
    assert_eq!(overwrite.overwrite_output_if_above(100, 7), 42);
    assert_eq!(overwrite.overwrite_output_if_above(99, 7), 7);
    assert_eq!(overwrite.overwrite_output_if_below(100, 7), 42);
    assert_eq!(overwrite.overwrite_output_if_below(101, 7), 7);
}

#[test]
fn transformer_dispatch() {
    let clusterer = Clusterer2d::new(Size2d::new(2, 1), vec![1, 2]).unwrap();

    assert_eq!(Transformer2d::Clusterer(clusterer).transform(200, 3), 2);
    assert_eq!(Transformer2d::Const(9).transform(200, 3), 9);
    assert_eq!(Transformer2d::new_overwrite_if_above(0, 50).transform(50, 3), 0);
    assert_eq!(Transformer2d::new_overwrite_if_above(0, 50).transform(49, 3), 3);
    assert_eq!(Transformer2d::new_overwrite_if_below(0, 50).transform(51, 3), 3);
}

#[test]
fn transformer_data_conversion() {
    let data = Transformer2dData::Clusterer(Clusterer2dData::new(Size2d::new(2, 2), vec![1]));
    assert!(data.try_convert().is_err());

    let data = Transformer2dData::Const(3);
    assert_eq!(data.try_convert().unwrap().into_data(), Transformer2dData::Const(3));
}
