use rearray::{Dense, IndexNd, Rearray, View, ViewMut};

#[test]
fn a_zero_handle_reports_its_shape_and_stores_one_element_for_each() {
    for dims in [vec![], vec![4], vec![17, 8], vec![2, 3, 4], vec![5, 0], vec![1, 1, 1]] {
        let count: usize = dims.iter().product();
        let mut h: Rearray<u32> = Rearray::zeros(IndexNd::from(dims.clone()));
        assert_eq!(h.size(), IndexNd::from(dims.clone()));
        let v = h.dense_view();
        assert_eq!(v.as_ptr().len(), count);
        assert_eq!(v.flat_size(), count);
        assert_eq!(v.size(), &IndexNd::from(dims));
        assert!(v.as_ptr().iter().all(|&e| e == 0));
    }
}

#[test]
fn queries_do_not_need_the_elements() {
    let h: Rearray<u32> = Rearray::zeros(IndexNd::from(vec![17, 8]));
    assert_eq!(h.size(), IndexNd::from(vec![17, 8]));
    assert_eq!(h.stride(), IndexNd::from(vec![1, 17]));
    assert!(h.is_packed());
}

#[test]
fn a_shape_too_large_to_store_can_still_be_described() {
    let h: Rearray<u8> = Rearray::zeros(IndexNd::from(vec![usize::MAX, usize::MAX]));
    assert_eq!(h.size(), IndexNd::from(vec![usize::MAX, usize::MAX]));
    assert!(h.is_packed());
    assert!(!h.size().is_representable());
}

#[test]
fn two_views_store_the_elements_once() {
    let mut h: Rearray<u64> = Rearray::zeros(IndexNd::from(vec![3, 3]));
    let first = h.dense_view().as_ptr().as_ptr() as usize;
    let second = h.dense_view().as_ptr().as_ptr() as usize;
    assert_eq!(first, second);
    h.materialize();
    let third = h.dense_view().as_ptr().as_ptr() as usize;
    assert_eq!(first, third);
}

#[test]
fn what_was_written_survives_later_views() {
    let mut h: Rearray<u64> = Rearray::zeros(IndexNd::from(vec![3]));
    h.dense_view_mut().as_ptr_mut()[1] = 11;
    h.materialize();
    assert_eq!(h.dense_view().as_ptr(), &[0u64, 11, 0][..]);
    assert_eq!(h.dense_view().as_ptr(), &[0u64, 11, 0][..]);
    h.dense_view_mut().as_ptr_mut()[2] = 12;
    assert_eq!(h.dense_view().as_ptr(), &[0u64, 11, 12][..]);
}

#[test]
fn copy_on_write_leaves_the_other_handle_untouched() {
    let mut h: Rearray<u32> = Rearray::zeros(IndexNd::from(vec![4]));
    let mut h2 = h.clone();
    {
        let mut vm = h2.dense_view_mut();
        let elems = vm.as_ptr_mut();
        elems[0] = 1;
        elems[1] = 2;
        elems[2] = 3;
        elems[3] = 4;
    }
    assert_eq!(h.dense_view().as_ptr(), &[0u32, 0, 0, 0][..]);
    assert_eq!(h2.dense_view().as_ptr(), &[1u32, 2, 3, 4][..]);
}

#[test]
fn copy_on_write_splits_a_shared_buffer() {
    let mut h: Rearray<u32> = Rearray::zeros(IndexNd::from(vec![4]));
    h.materialize();
    let mut h2 = h.clone();
    let shared = h.dense_view().as_ptr().as_ptr() as usize;
    assert_eq!(h2.dense_view().as_ptr().as_ptr() as usize, shared);
    {
        let mut vm = h2.dense_view_mut();
        assert_eq!(vm.as_ptr(), &[0u32, 0, 0, 0][..]);
        vm.as_ptr_mut()[3] = 9;
    }
    assert_eq!(h.dense_view().as_ptr(), &[0u32, 0, 0, 0][..]);
    assert_eq!(h2.dense_view().as_ptr(), &[0u32, 0, 0, 9][..]);
    assert_eq!(h.dense_view().as_ptr().as_ptr() as usize, shared);
    assert_ne!(h2.dense_view().as_ptr().as_ptr() as usize, shared);
}

#[test]
fn a_buffer_that_is_not_shared_is_written_in_place() {
    let mut h: Rearray<u32> = Rearray::zeros(IndexNd::from(vec![4]));
    let before = h.dense_view().as_ptr().as_ptr() as usize;
    h.dense_view_mut().as_ptr_mut()[0] = 5;
    assert_eq!(h.dense_view().as_ptr().as_ptr() as usize, before);
    let h2 = h.clone();
    drop(h2);
    h.dense_view_mut().as_ptr_mut()[1] = 6;
    assert_eq!(h.dense_view().as_ptr().as_ptr() as usize, before);
    assert_eq!(h.dense_view().as_ptr(), &[5u32, 6, 0, 0][..]);
}

#[test]
fn a_clone_of_a_stored_handle_sees_what_was_written_before_it_was_made() {
    let mut h: Rearray<i16> = Rearray::zeros(IndexNd::from(vec![2]));
    h.dense_view_mut().as_ptr_mut()[0] = -3;
    let mut h2 = h.clone();
    h.dense_view_mut().as_ptr_mut()[1] = 4;
    assert_eq!(h.dense_view().as_ptr(), &[-3i16, 4][..]);
    assert_eq!(h2.dense_view().as_ptr(), &[-3i16, 0][..]);
}

#[test]
fn storing_one_clone_leaves_the_other_described() {
    let h: Rearray<u8> = Rearray::zeros(IndexNd::from(vec![2, 2]));
    let mut h2 = h.clone();
    assert!(h.stored_view().is_none());
    assert!(h2.stored_view().is_none());
    h2.materialize();
    assert!(h2.stored_view().is_some());
    assert!(h.stored_view().is_none());
    assert_eq!(h.size(), IndexNd::from(vec![2, 2]));
    assert_eq!(h2.stored_view().unwrap().as_ptr(), &[0u8, 0, 0, 0][..]);
    let mut h = h;
    assert_eq!(h.dense_view().as_ptr(), &[0u8, 0, 0, 0][..]);
}

#[test]
fn stored_views_can_be_held_together() {
    let mut h: Rearray<u8> = Rearray::constant(IndexNd::from(vec![2]), 4);
    assert!(h.stored_view().is_none());
    h.materialize();
    let first = h.stored_view().unwrap();
    let second = h.stored_view().unwrap();
    assert_eq!(first.as_ptr(), &[4u8, 4][..]);
    assert_eq!(second.as_ptr(), first.as_ptr());
    assert_eq!(first.as_ptr().as_ptr() as usize, second.as_ptr().as_ptr() as usize);
    assert_eq!(first.size(), &IndexNd::from(vec![2]));
    assert!(second.is_packed());
}

#[test]
fn clones_of_a_described_handle_are_independent() {
    let h: Rearray<u8> = Rearray::zeros(IndexNd::from(vec![2, 2]));
    let mut h2 = h.clone();
    h2.dense_view_mut().as_ptr_mut()[0] = 1;
    let mut h3 = h.clone();
    assert_eq!(h3.size(), IndexNd::from(vec![2, 2]));
    assert_eq!(h3.dense_view().as_ptr(), &[0u8, 0, 0, 0][..]);
    assert_eq!(h2.dense_view().as_ptr(), &[1u8, 0, 0, 0][..]);
    let mut h = h;
    assert_eq!(h.dense_view().as_ptr(), &[0u8, 0, 0, 0][..]);
}

#[test]
fn a_constant_handle_broadcasts_its_value() {
    let mut h: Rearray<i32> = Rearray::constant(IndexNd::from(vec![2, 3]), -7);
    assert_eq!(h.size(), IndexNd::from(vec![2, 3]));
    assert_eq!(h.stride(), IndexNd::from(vec![1, 2]));
    assert!(h.is_packed());
    let v = h.dense_view();
    assert_eq!(v.as_ptr(), &[-7i32; 6][..]);
    assert!(v.is_packed());
    assert_eq!(v.stride(), &IndexNd::from(vec![1, 2]));
    assert_eq!(v.offset(), &IndexNd::from(vec![0, 0]));
}

#[test]
fn a_stored_handle_is_packed_with_the_packed_stride() {
    let mut h: Rearray<u8> = Rearray::zeros(IndexNd::from(vec![2, 3, 4]));
    h.materialize();
    assert!(h.is_packed());
    assert_eq!(h.stride(), IndexNd::from(vec![1, 2, 6]));
    assert_eq!(h.stride(), h.size().to_packed_stride());
    assert_eq!(h.size(), IndexNd::from(vec![2, 3, 4]));
}

#[test]
fn the_traits_hand_out_the_same_views() {
    let mut h: Rearray<u8> = Rearray::zeros(IndexNd::from(vec![3]));
    {
        let mut vm = <Rearray<u8> as ViewMut<Dense>>::view_mut(&mut h);
        vm.as_ptr_mut()[2] = 8;
    }
    let v = <Rearray<u8> as View<Dense>>::view(&mut h);
    assert_eq!(v.as_ptr(), &[0u8, 0, 8][..]);
    assert_eq!(v.size(), &IndexNd::from(vec![3]));
}

#[test]
fn reshape_of_a_described_handle_stays_described() {
    let h: Rearray<u8> = Rearray::constant(IndexNd::from(vec![2, 6]), 3);
    let mut r = h.reshape(IndexNd::from(vec![3, 4]));
    assert_eq!(r.size(), IndexNd::from(vec![3, 4]));
    assert_eq!(r.stride(), IndexNd::from(vec![1, 3]));
    assert!(r.is_packed());
    assert_eq!(r.dense_view().as_ptr(), &[3u8; 12][..]);
    assert_eq!(h.size(), IndexNd::from(vec![2, 6]));
}

#[test]
fn reshape_of_a_stored_handle_keeps_the_elements_and_is_packed() {
    let mut h: Rearray<u8> = Rearray::zeros(IndexNd::from(vec![2, 3]));
    {
        let mut vm = h.dense_view_mut();
        let elems = vm.as_ptr_mut();
        for i in 0..6 {
            elems[i] = i as u8 + 1;
        }
    }
    let mut r = h.reshape(IndexNd::from(vec![6]));
    assert_eq!(r.size(), IndexNd::from(vec![6]));
    assert_eq!(r.stride(), IndexNd::from(vec![1]));
    assert!(r.is_packed());
    {
        let v = r.dense_view();
        assert_eq!(v.offset(), &IndexNd::from(vec![0]));
        assert_eq!(v.as_ptr(), &[1u8, 2, 3, 4, 5, 6][..]);
    }
    r.dense_view_mut().as_ptr_mut()[0] = 100;
    assert_eq!(h.dense_view().as_ptr(), &[1u8, 2, 3, 4, 5, 6][..]);
    assert_eq!(h.size(), IndexNd::from(vec![2, 3]));
}
