use ndpoint::Point;

#[test]
fn elementwise_at_each_index() {
    let a = Point::new(vec![7i64, -2, 0, 5]);
    let b = Point::new(vec![3i64, 4, -6, 5]);
    let sum = &a + &b;
    let diff = &a - &b;
    let prod = &a * &b;
    for i in 0..4 {
        assert_eq!(sum.coordinates()[i], a.coordinates()[i] + b.coordinates()[i]);
        assert_eq!(diff.coordinates()[i], a.coordinates()[i] - b.coordinates()[i]);
        assert_eq!(prod.coordinates()[i], a.coordinates()[i] * b.coordinates()[i]);
    }
    assert_eq!(sum.coordinates().to_vec(), vec![10, 2, -6, 10]);
    assert_eq!(diff.coordinates().to_vec(), vec![4, -6, 6, 0]);
    assert_eq!(prod.coordinates().to_vec(), vec![21, -8, 0, 25]);
}

#[test]
fn scalar_ops_keep_dimension() {
    let a = Point::new(vec![5u32, 9, 12, 1, 8]);
    assert_eq!(a.dim(), 5);
    assert_eq!((&a + 2).dim(), 5);
    assert_eq!((&a - 1).dim(), 5);
    assert_eq!((&a * 3).dim(), 5);
    assert_eq!((&a / 4).dim(), 5);
}

#[test]
fn scale_round_trip_signed() {
    let a = Point::new(vec![10i32, -20, 30, 0, -7]);
    let back = &(&a * -3) / -3;
    assert_eq!(back.coordinates().to_vec(), a.coordinates().to_vec());
}

#[test]
fn scale_round_trip_unsigned() {
    let a = Point::new(vec![10u64, 20, 30, u64::MAX / 7]);
    let back = (a.clone() * 7) / 7;
    assert_eq!(back.coordinates().to_vec(), vec![10, 20, 30, u64::MAX / 7]);
}

#[test]
fn division_truncates_toward_zero() {
    let a = Point::new(vec![-7i32, 7, -1]);
    assert_eq!((&a / 2).coordinates().to_vec(), vec![-3, 3, 0]);
}

#[test]
fn empty_point() {
    let e: Point<i32> = Point::new(Vec::new());
    assert_eq!(e.dim(), 0);
    assert_eq!((&e + &e).dim(), 0);
    assert_eq!((&e * 5).dim(), 0);
    assert_eq!(e.apply(|x| x.len()), 0);
}

#[test]
fn consuming_and_borrowing_forms_agree() {
    let a = Point::new(vec![4i32, -8, 15, 16]);
    assert_eq!((&a + 3).coordinates(), (a.clone() + 3).coordinates());
    assert_eq!((&a - 3).coordinates(), (a.clone() - 3).coordinates());
    assert_eq!((&a * 3).coordinates(), (a.clone() * 3).coordinates());
    assert_eq!((&a / 3).coordinates(), (a.clone() / 3).coordinates());
    assert_eq!((&a / 3).coordinates().to_vec(), vec![1, -2, 5, 5]);
}

#[test]
fn operands_are_left_unchanged() {
    let a = Point::new(vec![1i32, 2, 3]);
    let b = Point::new(vec![4i32, 5, 6]);
    let _ = &a + &b;
    let _ = &a * 10;
    assert_eq!(a.coordinates().to_vec(), vec![1, 2, 3]);
    assert_eq!(b.coordinates().to_vec(), vec![4, 5, 6]);
}

#[test]
fn apply_weighted_sum() {
    let a = Point::new(vec![1i32, 2, 3]);
    let w = a.apply(|x| x.iter().enumerate().map(|(i, &v)| (i as i64 + 1) * v as i64).sum::<i64>());
    assert_eq!(w, 14);
}

#[test]
fn float_scalar_ops() {
    let a = Point::new(vec![1.5f64, -2.0]);
    assert_eq!((&a * 2.0).coordinates().to_vec(), vec![3.0, -4.0]);
    assert_eq!((a / 2.0).coordinates().to_vec(), vec![0.75, -1.0]);
}
