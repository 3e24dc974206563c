use rustic_balancer::move_semantics2;
use rustic_balancer::move_semantics4;

#[test]
fn move_semantics2_main() {
    let vec0: Vec<i32> = vec![22, 44, 66];

    let vec1 = move_semantics2::fill_vec(vec0.clone());

    assert_eq!(vec0, vec![22, 44, 66]);
    assert_eq!(vec1, vec![22, 44, 66, 88]);
}

#[test]
fn move_semantics4_main() {
    let vec1 = move_semantics4::fill_vec();

    assert_eq!(vec1, vec![22, 44, 66, 88]);
}

#[test]
fn move_semantics5_main() {
    let mut x: i32 = 100;
    let z = &mut x;
    *z += 1000;
    let y = &mut x;
    *y += 100;

    assert_eq!(x, 1200);
}

#[test]
fn fill_vec_appends_to_empty() {
    assert_eq!(move_semantics2::fill_vec(Vec::new()), vec![88]);
}
