use elis_gtk::order_numbers::{next_order_number_after, should_store};

#[test]
fn next_order_number_follows_the_largest_key() {
    assert_eq!(next_order_number_after(&vec![3, 9, 4]), 10);
    assert_eq!(next_order_number_after(&vec![9, 3]), 10);
    assert_eq!(next_order_number_after(&vec![0]), 1);
    assert_eq!(next_order_number_after(&vec![u32::MAX - 1]), u32::MAX);
}

#[test]
fn next_order_number_without_invoices_is_one() {
    assert_eq!(next_order_number_after(&Vec::new()), 1);
}

#[test]
fn next_order_number_is_not_taken() {
    let keys = vec![1, 2, 5, 7];
    let n = next_order_number_after(&keys);
    assert!(!keys.contains(&n));
    assert!(should_store(&keys, n));
}

#[test]
fn should_store_refuses_a_taken_number() {
    let keys = vec![1, 2, 5, 7];
    assert!(!should_store(&keys, 5));
    assert!(!should_store(&keys, 1));
    assert!(should_store(&keys, 3));
    assert!(should_store(&Vec::new(), 0));
}
