use kyron::io_driver::{dispatch_events, park_plan, ParkPlan, WAKER_IO_ID};
use kyron::mio_types::{IoEvent, IoEventInterest, IoId};

#[test]
fn dispatch_skips_waker_events_and_keeps_order() {
    let r = IoEventInterest::readable_interest();
    let w = IoEventInterest::writable_interest();
    let events = vec![
        IoEvent::new(IoId::new(7), r),
        IoEvent::new(IoId::new(WAKER_IO_ID), r),
        IoEvent::new(IoId::new(3), r | w),
        IoEvent::new(IoId::new(9), w),
    ];
    let out = dispatch_events(&events);
    assert_eq!(out.len(), 3);
    assert_eq!(out[0].0, IoId::new(7));
    assert!(out[0].1.is_readable());
    assert!(!out[0].1.is_writable());
    assert_eq!(out[0].1.tick(), 0);
    assert_eq!(out[1].0, IoId::new(3));
    assert!(out[1].1.is_readable());
    assert!(out[1].1.is_writable());
    assert_eq!(out[2].0, IoId::new(9));
    assert!(!out[2].1.is_readable());
    assert!(out[2].1.is_writable());
}

#[test]
fn dispatch_of_only_waker_events_is_empty() {
    let events = vec![IoEvent::new(IoId::new(WAKER_IO_ID), IoEventInterest::readable_interest())];
    assert!(dispatch_events(&events).is_empty());
    assert!(dispatch_events(&Vec::new()).is_empty());
}

#[test]
fn park_without_timeout_sleeps_indefinitely() {
    assert_eq!(park_plan(None, 0, 0), ParkPlan::Indefinitely);
    assert_eq!(park_plan(None, 100, 100), ParkPlan::Indefinitely);
}

#[test]
fn park_leaves_promised_timeout_to_its_keeper() {
    // Another worker promised to wake up at 500.
    assert_eq!(park_plan(Some(500), 500, 0), ParkPlan::Indefinitely);
    // This worker made that promise itself.
    assert_eq!(park_plan(Some(500), 500, 500), ParkPlan::Until(500));
    // Nobody promised this expiration yet.
    assert_eq!(park_plan(Some(500), 300, 0), ParkPlan::Until(500));
}
