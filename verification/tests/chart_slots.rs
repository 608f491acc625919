use stolcker::chart::slot_from_left;

#[test]
fn most_recent_record_stands_rightmost() {
    assert_eq!(slot_from_left(5, 0), 4);
    assert_eq!(slot_from_left(5, 4), 0);
    assert_eq!(slot_from_left(1, 0), 0);
}

#[test]
fn slots_reverse_the_positions() {
    let len: usize = 100;
    for i in 0..len {
        let slot = slot_from_left(len, i);
        assert_eq!(slot, len - 1 - i);
        assert_eq!(slot_from_left(len, slot), i);
    }
}

#[test]
fn slot_center_does_not_depend_on_prices() {
    let width = 640.0f64;
    let len: usize = 4;
    let gap = width / len as f64;
    let centers: Vec<f64> =
        (0..len).map(|i| slot_from_left(len, i) as f64 * gap + gap / 2.0).collect();
    assert_eq!(centers, vec![560.0, 400.0, 240.0, 80.0]);
}
