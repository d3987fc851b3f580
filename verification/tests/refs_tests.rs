use cryptoctx::refs::{f1, f2, f3, f4};

#[test]
fn test_f1() {
    let mut tuple1 = (1u32, 2u32);
    assert_eq!(f1(&mut tuple1, false), &mut 1);
    assert_eq!(f1(&mut tuple1, true), &mut 2);
}

#[test]
fn test_f2() {
    let mut a = [1, 2, 3, 4, 5];
    assert_eq!(f2(&mut a, 0), &mut 1);
    assert_eq!(f2(&mut a, 1), &mut 1);
    assert_eq!(f2(&mut a, 2), &mut 2);
    assert_eq!(f2(&mut a, 3), &mut 3);
    assert_eq!(f2(&mut a, 4), &mut 4);
    assert_eq!(f2(&mut a, 5), &mut 5);
    assert_eq!(f2(&mut a, 6), &mut 5);
}

#[test]
fn test_f3() {
    let a = [1, 2, 3, 4, 5];
    assert_eq!(f3(&a, 0), &5);
    assert_eq!(f3(&a, 1), &5);
    assert_eq!(f3(&a, 2), &4);
    assert_eq!(f3(&a, 3), &3);
    assert_eq!(f3(&a, 4), &2);
    assert_eq!(f3(&a, 5), &1);
    assert_eq!(f3(&a, 6), &1);
}

#[test]
fn test_4() {
    let a = [1, 2, 3, 4, 5];
    let res = f4(&a);
    assert_eq!(res.0, &[1]);
    assert_eq!(res.1, &[2]);
    assert_eq!(res.2, &[3]);
    assert_eq!(res.3, &[4, 5]);
}

#[test]
fn f1_writes_through() {
    let mut tuple1 = (1u32, 2u32);
    *f1(&mut tuple1, true) = 7;
    assert_eq!(tuple1, (1, 7));
    *f1(&mut tuple1, false) = 9;
    assert_eq!(tuple1, (9, 7));
}
