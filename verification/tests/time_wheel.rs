use kyron::time_wheel::{TimeWheel, MAX_LEVEL};

#[test]
fn wheel_level_zero_slots() {
    let mut w: TimeWheel<&str> = TimeWheel::new(0);
    assert_eq!(w.level(), 0);
    assert_eq!(w.slot_range(), 1);
    assert_eq!(w.level_range(), 64);
    assert!(w.next_occupied_slot(0).is_none());
    assert!(w.next_expiration(0).is_none());

    assert!(w.register_wakeup_on_timeout(10, 15, "a").is_ok());
    assert!(w.register_wakeup_on_timeout(10, 15, "b").is_ok());
    assert!(w.register_wakeup_on_timeout(10, 30, "c").is_ok());
    assert_eq!(w.register_wakeup_on_timeout(10, 74, "far"), Err("far"));

    assert_eq!(w.next_occupied_slot(0), Some(5));
    let info = w.next_expiration(3).unwrap();
    assert_eq!((info.level, info.slot_id, info.deadline), (0, 5, 5));

    let entries = w.aquire_slot(&info);
    assert_eq!(entries, vec!["b", "a"]);
    assert_eq!(w.next_occupied_slot(6), Some(20));
    assert_eq!(w.next_occupied_slot(21), Some(20));
}

#[test]
fn wheel_higher_level_ranges() {
    let mut w: TimeWheel<u32> = TimeWheel::new(1);
    assert_eq!(w.slot_range(), 64);
    assert_eq!(w.level_range(), 4096);
    assert!(w.is_in_wheel_range(4095));
    assert!(!w.is_in_wheel_range(4096));
    assert!(w.register_wakeup_on_timeout(0, 200, 1).is_ok());
    assert_eq!(w.next_occupied_slot(0), Some(3));
    let info = w.next_expiration(0).unwrap();
    assert_eq!((info.slot_id, info.deadline), (3, 192));
    let top: TimeWheel<u32> = TimeWheel::new(MAX_LEVEL);
    assert_eq!(top.level_range(), 1u64 << 60);
}
