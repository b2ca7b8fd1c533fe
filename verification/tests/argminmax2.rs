use headjack::utils::argminmax2::MinMax2;

#[test]
fn minmax_of_u16() {
    let v: Vec<u16> = vec![3, 1, 2, 65535, 7];
    assert_eq!(v.minmax2(), (1, 65535));
}

#[test]
fn minmax_of_u32() {
    let v: Vec<u32> = vec![30, 10, 20];
    assert_eq!(v.minmax2(), (10, 30));
    let one: Vec<u32> = vec![5];
    assert_eq!(one.minmax2(), (5, 5));
}

#[test]
fn minmax_of_u64() {
    let v: Vec<u64> = vec![u64::MAX, 0, 17, 0, u64::MAX];
    assert_eq!(v.minmax2(), (0, u64::MAX));
    let flat: Vec<u64> = vec![4, 4, 4];
    assert_eq!(flat.minmax2(), (4, 4));
}

#[test]
fn minmax_of_a_long_run() {
    let v: Vec<u32> = (0..10_000u32).map(|i| (i * 7919) % 10_007 + 3).collect();
    let lo = *v.iter().min().unwrap();
    let hi = *v.iter().max().unwrap();
    assert_eq!(v.minmax2(), (lo, hi));
    assert_ne!(lo, hi);
}
