use rearray::IndexNd;

#[test]
fn packed_stride_has_a_contiguous_first_axis() {
    assert_eq!(IndexNd::from(vec![17, 8]).to_packed_stride(), IndexNd::from(vec![1, 17]));
    assert_eq!(IndexNd::from(vec![2, 3, 4]).to_packed_stride(), IndexNd::from(vec![1, 2, 6]));
    assert_eq!(IndexNd::from(vec![8]).to_packed_stride(), IndexNd::from(vec![1]));
    assert_eq!(IndexNd::from(vec![]).to_packed_stride(), IndexNd::from(vec![]));
}

#[test]
fn packed_stride_of_a_shape_with_an_empty_axis() {
    assert_eq!(IndexNd::from(vec![3, 0, 5]).to_packed_stride(), IndexNd::from(vec![1, 3, 0]));
}

#[test]
fn packed_stride_does_not_need_the_element_count_to_fit() {
    let half = 1usize << (usize::BITS / 2);
    assert_eq!(IndexNd::from(vec![half, half]).to_packed_stride(), IndexNd::from(vec![1, half]));
}

#[test]
fn flat_len_is_the_product_of_the_extents() {
    assert_eq!(IndexNd::from(vec![17, 8]).flat_len(), 136);
    assert_eq!(IndexNd::from(vec![2, 3, 4]).flat_len(), 24);
    assert_eq!(IndexNd::from(vec![4]).flat_len(), 4);
    assert_eq!(IndexNd::from(vec![]).flat_len(), 1);
    assert_eq!(IndexNd::from(vec![5, 0, 7]).flat_len(), 0);
}

#[test]
fn checked_flat_len_tells_when_the_count_does_not_fit() {
    let half = 1usize << (usize::BITS / 2);
    assert_eq!(IndexNd::from(vec![17, 8]).checked_flat_len(), Some(136));
    assert_eq!(IndexNd::from(vec![half, half]).checked_flat_len(), None);
    assert_eq!(IndexNd::from(vec![usize::MAX, 2]).checked_flat_len(), None);
    assert_eq!(IndexNd::from(vec![usize::MAX, 1]).checked_flat_len(), Some(usize::MAX));
    assert_eq!(IndexNd::from(vec![half, half, 0]).checked_flat_len(), Some(0));
    assert_eq!(IndexNd::from(vec![half, half, 0]).flat_len(), 0);
}

#[test]
fn representable_shapes() {
    let half = 1usize << (usize::BITS / 2);
    assert!(IndexNd::from(vec![]).is_representable());
    assert!(IndexNd::from(vec![17, 8]).is_representable());
    assert!(IndexNd::from(vec![usize::MAX]).is_representable());
    assert!(IndexNd::from(vec![half, half - 1]).is_representable());
    assert!(!IndexNd::from(vec![half, half]).is_representable());
    assert!(!IndexNd::from(vec![half, half, 0]).is_representable());
    assert!(IndexNd::from(vec![0, half, half]).is_representable());
}

#[test]
fn is_packed_compares_with_the_packed_stride() {
    let shape = IndexNd::from(vec![2, 3, 4]);
    assert!(shape.is_packed(&IndexNd::from(vec![1, 2, 6])));
    assert!(shape.is_packed(&shape.to_packed_stride()));
    assert!(!shape.is_packed(&IndexNd::from(vec![12, 4, 1])));
    assert!(!shape.is_packed(&IndexNd::from(vec![1, 2, 8])));
    assert!(!shape.is_packed(&IndexNd::from(vec![2, 2, 6])));
    assert!(!shape.is_packed(&IndexNd::from(vec![1, 2])));
    assert!(!shape.is_packed(&IndexNd::from(vec![1, 2, 6, 24])));
    assert!(IndexNd::from(vec![]).is_packed(&IndexNd::from(vec![])));
}

#[test]
fn is_packed_where_the_packed_stride_does_not_fit() {
    let half = 1usize << (usize::BITS / 2);
    let shape = IndexNd::from(vec![half, half, 3]);
    assert!(!shape.is_packed(&IndexNd::from(vec![1, half, 0])));
    assert!(!shape.is_packed(&IndexNd::from(vec![1, half, usize::MAX])));
    assert!(IndexNd::from(vec![half, half]).is_packed(&IndexNd::from(vec![1, half])));
}

#[test]
fn zero_index_and_is_zero() {
    assert_eq!(IndexNd::zero(3), IndexNd::from(vec![0, 0, 0]));
    assert_eq!(IndexNd::zero(0), IndexNd::from(vec![]));
    assert!(IndexNd::zero(2).is_zero());
    assert!(IndexNd::from(vec![]).is_zero());
    assert!(!IndexNd::from(vec![0, 1]).is_zero());
    assert!(!IndexNd::from(vec![1, 0]).is_zero());
}

#[test]
fn dim_entries_and_clone() {
    let shape = IndexNd::from(vec![17, 8]);
    assert_eq!(shape.dim(), 2);
    assert_eq!(shape[0], 17);
    assert_eq!(shape[1], 8);
    assert_eq!(shape.clone(), shape);
    assert_eq!(IndexNd::from(vec![]).dim(), 0);
}
