use ndarray_tensorflow::NdTensor;
use ndarray_tensorflow::ShapeError;
use ndarray_tensorflow::TargetRank;
use ndarray_tensorflow::TensorBuf;
use ndarray_tensorflow::TensorView;
use ndarray_tensorflow::TensorViewMut;

#[test]
fn view() {
    let tensor = TensorBuf::new(vec![2, 3])
        .with_values(vec![0u32, 1, 2, 3, 4, 5])
        .unwrap();
    let array = NdTensor::from_tensor(tensor, &TargetRank::Fixed(2)).unwrap();
    let v = array.view();
    assert_eq!(v.dims(), &vec![2, 3]);
    assert_eq!(*v.at(&vec![0, 0]), 0);
    assert_eq!(*v.at(&vec![0, 1]), 1);
    assert_eq!(*v.at(&vec![0, 2]), 2);
    assert_eq!(*v.at(&vec![1, 0]), 3);
    assert_eq!(*v.at(&vec![1, 1]), 4);
    assert_eq!(*v.at(&vec![1, 2]), 5);
}

#[test]
fn view_mut() {
    let tensor = TensorBuf::new(vec![2, 3])
        .with_values(vec![0u32, 1, 2, 3, 4, 5])
        .unwrap();
    let array = NdTensor::from_tensor(tensor, &TargetRank::Fixed(2)).unwrap();
    let mut w = array.view_mut();
    w.set(&vec![0, 2], 42);
    let array = w.finish();

    let v = array.view();
    assert_eq!(v.data(), &vec![0u32, 1, 42, 3, 4, 5]);
    assert_eq!(*v.at(&vec![0, 2]), 42);
    assert_eq!(*v.at(&vec![1, 2]), 5);
}

#[test]
#[should_panic]
fn incorrect_dimensions() {
    let tensor = TensorBuf::new(vec![2, 3])
        .with_values(vec![0u32, 1, 2, 3, 4, 5])
        .unwrap();
    let _array: NdTensor<u32> = NdTensor::from_tensor(tensor, &TargetRank::Fixed(1)).unwrap();
}

#[test]
fn zeros() {
    let array: NdTensor<i32> = NdTensor::zeros(vec![2, 3]);
    let mut w = array.view_mut();
    w.set(&vec![0, 0], 1);
    w.set(&vec![0, 1], 2);
    w.set(&vec![0, 2], 3);
}

#[test]
fn rank_mismatch_is_the_one_error() {
    let tensor = TensorBuf::new(vec![2, 3])
        .with_values(vec![0u32, 1, 2, 3, 4, 5])
        .unwrap();
    let r = NdTensor::from_tensor(tensor, &TargetRank::Fixed(1));
    assert!(matches!(r, Err(ShapeError)));
}

#[test]
fn error_message() {
    let e = ShapeError;
    assert_eq!(
        e.message(),
        "Mismatch between the tensor shape dimensionality and the shape type"
    );
}

#[test]
fn matching_rank_keeps_extents() {
    let tensor = TensorBuf::new(vec![2, 3, 4])
        .with_values((0u32..24).collect())
        .unwrap();
    let array = NdTensor::from_tensor(tensor, &TargetRank::Fixed(3)).unwrap();
    let v = array.view();
    assert_eq!(v.ndim(), 3);
    assert_eq!(v.dim(0), 2);
    assert_eq!(v.dim(1), 3);
    assert_eq!(v.dim(2), 4);
}

#[test]
fn dynamic_rank_accepts_any_shape() {
    let tensor = TensorBuf::new(vec![2, 3])
        .with_values(vec![0u32, 1, 2, 3, 4, 5])
        .unwrap();
    let array = NdTensor::from_tensor(tensor, &TargetRank::Dynamic).unwrap();
    assert_eq!(array.view().dims(), &vec![2, 3]);

    let scalar = TensorBuf::new(vec![]).with_values(vec![7u32]).unwrap();
    let array = NdTensor::from_tensor(scalar, &TargetRank::Dynamic).unwrap();
    assert_eq!(array.view().ndim(), 0);
    assert_eq!(*array.view().at(&vec![]), 7);
}

#[test]
fn zeros_roundtrip() {
    let array: NdTensor<i32> = NdTensor::zeros(vec![2, 3]);
    {
        let v = array.view();
        for i in 0..2 {
            for j in 0..3 {
                assert_eq!(*v.at(&vec![i, j]), 0);
            }
        }
    }
    let mut w = array.view_mut();
    w.set(&vec![0, 0], 1);
    w.set(&vec![0, 1], 2);
    w.set(&vec![0, 2], 3);
    let array = w.finish();
    let v = array.view();
    assert_eq!(*v.at(&vec![0, 0]), 1);
    assert_eq!(*v.at(&vec![0, 1]), 2);
    assert_eq!(*v.at(&vec![0, 2]), 3);
    assert_eq!(*v.at(&vec![1, 0]), 0);
    assert_eq!(*v.at(&vec![1, 1]), 0);
    assert_eq!(*v.at(&vec![1, 2]), 0);
}

#[test]
fn reclaim_identity() {
    let tensor = TensorBuf::new(vec![2, 3])
        .with_values(vec![0u32, 1, 2, 3, 4, 5])
        .unwrap();
    let array = NdTensor::from_tensor(tensor, &TargetRank::Fixed(2)).unwrap();
    let reclaimed = array.into_inner();
    assert_eq!(reclaimed.dims(), &vec![2, 3]);
    assert_eq!(reclaimed.data(), &vec![0u32, 1, 2, 3, 4, 5]);
}

#[test]
fn reclaimed_length_matches_product() {
    for dims in [vec![], vec![1, 1, 1], vec![3, 4], vec![0, 5], vec![2, 3, 4]] {
        let product: usize = dims.iter().product();
        let array: NdTensor<u32> = NdTensor::zeros(dims.clone());
        let reclaimed = array.into_inner();
        assert_eq!(reclaimed.dims(), &dims);
        assert_eq!(reclaimed.len(), product);
    }
}

#[test]
fn with_values_length_mismatch() {
    let r = TensorBuf::new(vec![2, 3]).with_values(vec![0u32, 1, 2]);
    assert!(r.is_none());
    let r = TensorBuf::new(vec![0, 5]).with_values(vec![0u32]);
    assert!(r.is_none());
    let r = TensorBuf::new(vec![0, 5]).with_values(Vec::<u32>::new());
    assert!(r.is_some());
}

#[test]
fn row_major_offsets() {
    let shape = vec![2usize, 3];
    assert_eq!(ndarray_tensorflow::flat_offset(&shape, &vec![0, 0]), 0);
    assert_eq!(ndarray_tensorflow::flat_offset(&shape, &vec![0, 2]), 2);
    assert_eq!(ndarray_tensorflow::flat_offset(&shape, &vec![1, 0]), 3);
    assert_eq!(ndarray_tensorflow::flat_offset(&shape, &vec![1, 2]), 5);
    assert_eq!(ndarray_tensorflow::flat_offset(&vec![], &vec![]), 0);
}

#[test]
fn view_coercions() {
    let tensor = TensorBuf::new(vec![2, 3])
        .with_values(vec![0u32, 1, 2, 3, 4, 5])
        .unwrap();
    let array = NdTensor::from_tensor(tensor, &TargetRank::Fixed(2)).unwrap();
    let v: TensorView<u32> = (&array).into();
    assert_eq!(*v.at(&vec![1, 1]), 4);
    let mut w: TensorViewMut<u32> = array.into();
    w.set(&vec![1, 1], 40);
    assert_eq!(*w.at(&vec![1, 1]), 40);
}

#[test]
fn agrees_with_ndarray_views() {
    let tensor = TensorBuf::new(vec![2, 3])
        .with_values(vec![0u32, 1, 2, 3, 4, 5])
        .unwrap();
    let array = NdTensor::from_tensor(tensor, &TargetRank::Fixed(2)).unwrap();
    let v = array.view();
    let nd = ndarray::ArrayView2::from_shape((2, 3), &v.data()[..]).unwrap();
    assert_eq!(nd, ndarray::arr2(&[[0u32, 1, 2], [3, 4, 5]]));
    assert_eq!(nd[(0, 2)], *v.at(&vec![0, 2]));
    assert_eq!(nd[(1, 1)], *v.at(&vec![1, 1]));
}

#[test]
fn reconcile_copies_extents_in_order() {
    let dims = vec![5usize, 0, 7];
    let shape = ndarray_tensorflow::reconcile(&TargetRank::Fixed(3), &dims).unwrap();
    assert_eq!(shape, dims);
    let shape = ndarray_tensorflow::reconcile(&TargetRank::Dynamic, &dims).unwrap();
    assert_eq!(shape, dims);
    let r = ndarray_tensorflow::reconcile(&TargetRank::Fixed(2), &dims);
    assert!(matches!(r, Err(ShapeError)));
}
