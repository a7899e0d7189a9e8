use ndpoint::Point;

#[test]
fn new() {
    let ivec: Vec<i32> = vec![1, 2, 3];
    let fvec: Vec<f64> = vec![1.0, 2.0, 3.0];

    let iv = Point::new(ivec.clone());
    let fv = Point::new(fvec.clone());
    assert_eq!(iv.coordinates().to_vec(), ivec);
    assert_eq!(fv.coordinates().to_vec(), fvec);
}

#[test]
fn add() {
    let iv1 = Point::new(vec![1, 2, 3]);
    let iv2 = Point::new(vec![4, 5, 6]);
    let iv3 = &iv1 + &iv2;
    assert_eq!(iv3.coordinates().to_vec(), vec![5, 7, 9]);

    let fv1 = Point::new(vec![1.0, 2.0, 3.0]);
    let fv2 = Point::new(vec![4.0, 5.0, 6.0]);
    let fv3 = &fv1 + &fv2;
    assert_eq!(fv3.coordinates().to_vec(), vec![5.0, 7.0, 9.0]);
}

#[test]
fn sub() {
    let iv1 = Point::new(vec![1, 2, 3]);
    let iv2 = Point::new(vec![4, 5, 6]);
    let iv3 = &iv1 - &iv2;
    assert_eq!(iv3.coordinates().to_vec(), vec![-3, -3, -3]);
}

#[test]
fn mul() {
    let iv1 = Point::new(vec![1, 2, 3]);
    let iv2 = Point::new(vec![4, 5, 6]);
    let iv3 = &iv1 * &iv2;
    assert_eq!(iv3.coordinates().to_vec(), vec![4, 10, 18]);
}

#[test]
fn scalar_add() {
    let iv1 = Point::new(vec![1, 2, 3]);
    let iv2 = &iv1 + 10;
    assert_eq!(iv2.coordinates().to_vec(), vec![11, 12, 13]);
}

#[test]
fn scalar_sub() {
    let iv1 = Point::new(vec![1, 2, 3]);
    let iv2 = &iv1 - 10;
    assert_eq!(iv2.coordinates().to_vec(), vec![-9, -8, -7]);
}

#[test]
fn scalar_mul() {
    let iv1 = Point::new(vec![1, 2, 3]);
    let iv2 = &iv1 * 10;
    assert_eq!(iv2.coordinates().to_vec(), vec![10, 20, 30]);
}

#[test]
fn scalar_div() {
    let iv1 = Point::new(vec![10, 20, 30]);
    let iv2 = &iv1 / 10;
    assert_eq!(iv2.coordinates().to_vec(), vec![1, 2, 3]);
}

#[test]
fn own_add() {
    let iv1 = Point::new(vec![1, 2, 3]);
    let iv2 = iv1.clone() + 10;
    assert_eq!(iv2.coordinates().to_vec(), vec![11, 12, 13]);
}

#[test]
fn own_sub() {
    let iv1 = Point::new(vec![1, 2, 3]);
    let iv2 = iv1.clone() - 10;
    assert_eq!(iv2.coordinates().to_vec(), vec![-9, -8, -7]);
}

#[test]
fn own_mul() {
    let iv1 = Point::new(vec![1, 2, 3]);
    let iv2 = iv1.clone() * 10;
    assert_eq!(iv2.coordinates().to_vec(), vec![10, 20, 30]);
}

#[test]
fn own_div() {
    let iv1 = Point::new(vec![10, 20, 30]);
    let iv2 = iv1.clone() / 10;
    assert_eq!(iv2.coordinates().to_vec(), vec![1, 2, 3]);
}

#[test]
fn dim() {
    let iv1 = Point::new(vec![1, 2, 3]);
    let iv2 = Point::new(vec![4, 5, 6, 7]);
    assert_eq!(iv1.dim(), 3);
    assert_eq!(iv2.dim(), 4);
}

#[test]
fn apply() {
    let iv1 = Point::new(vec![1, 2, 3]);
    let iv2 = iv1.apply(|x| x[0] as f64 + x[1] as f64 + x[2] as f64);
    assert_eq!(iv2, 6.0);
}
