use titan::lifecycle::HandleLife;

#[test]
fn split_then_drop_both_halves_closes_exactly_once() {
    let mut life = HandleLife::new();
    assert_eq!(life.owners, 1);
    assert_eq!(life.closes, 0);

    life.retain();
    assert_eq!(life.owners, 2);
    assert_eq!(life.closes, 0);

    let first_closed = life.release();
    assert!(!first_closed);
    assert_eq!(life.closes, 0);

    let second_closed = life.release();
    assert!(second_closed);
    assert_eq!(life.closes, 1);
    assert_eq!(life.owners, 0);
}

#[test]
fn drop_order_of_the_halves_does_not_matter() {
    // The two halves are interchangeable in the accounting: whichever half
    // is dropped first releases first. Both orders give the same counts.
    for _order in 0..2 {
        let mut life = HandleLife::new();
        life.retain();
        assert!(!life.release());
        assert!(life.release());
        assert_eq!(life.closes, 1);
    }
}

#[test]
fn unsplit_interface_closes_on_its_sole_release() {
    let mut life = HandleLife::new();
    let closed = life.release();
    assert!(closed);
    assert_eq!(life.owners, 0);
    assert_eq!(life.closes, 1);
}
