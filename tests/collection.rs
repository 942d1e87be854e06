use manifold3d::collection::{collect_all, get_checked, unzip_pairs};

#[test]
fn get_checked_is_bounds_checked() {
    let square = |i: usize| i * i;
    assert_eq!(get_checked(3, 0, &square), Some(0));
    assert_eq!(get_checked(3, 2, &square), Some(4));
    assert_eq!(get_checked(3, 3, &square), None);
    assert_eq!(get_checked(0, 0, &square), None);
}

#[test]
fn get_checked_never_fetches_out_of_bounds() {
    let fetch = |i: usize| {
        assert!(i < 2, "fetched out of bounds");
        i
    };
    assert_eq!(get_checked(2, 5, &fetch), None);
    assert_eq!(get_checked(2, usize::MAX, &fetch), None);
}

#[test]
fn collect_all_materialises_in_order() {
    let names = ["a", "b", "c"];
    let fetch = |i: usize| names[i].to_string();
    assert_eq!(collect_all(3, &fetch), vec!["a", "b", "c"]);
    assert_eq!(collect_all(0, &fetch), Vec::<String>::new());
}

#[test]
fn unzip_pairs_keeps_order() {
    let (indices, weights) = unzip_pairs(&[(3usize, 0.5f64), (1, 0.25), (7, 1.0)]);
    assert_eq!(indices, vec![3, 1, 7]);
    assert_eq!(weights, vec![0.5, 0.25, 1.0]);
    let (a, b) = unzip_pairs::<u8, u8>(&[]);
    assert!(a.is_empty() && b.is_empty());
}
