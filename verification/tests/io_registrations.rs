use kyron::errors::CommonErrors;
use kyron::registrations::{Registrations, REGISTRATIONS_CAPACITY};

#[test]
fn registrations_run_out_of_slots() {
    let mut r = Registrations::new();
    let mut keys = Vec::new();
    for i in 0..REGISTRATIONS_CAPACITY {
        keys.push(r.request_registration_info(i as u64).unwrap());
    }
    assert_eq!(r.request_registration_info(9999), Err(CommonErrors::NoSpaceLeft));
    let distinct: std::collections::HashSet<usize> = keys.iter().copied().collect();
    assert_eq!(distinct.len(), REGISTRATIONS_CAPACITY);
    assert!(keys.iter().all(|k| *k < REGISTRATIONS_CAPACITY));
    r.release_registration_info(keys[5]);
    assert_eq!(r.request_registration_info(9999), Ok(keys[5]));
}

#[test]
fn disposed_registration_keeps_its_slot_until_cleanup() {
    let mut r = Registrations::new();
    for i in 0..REGISTRATIONS_CAPACITY - 1 {
        r.request_registration_info(i as u64).unwrap();
    }
    let last = r.request_registration_info(77).unwrap();
    r.schedule_registration_for_disposal(last);
    // Still tracked: the map stays full until the cleanup.
    assert_eq!(r.request_registration_info(1), Err(CommonErrors::NoSpaceLeft));
    assert_eq!(r.cleanup_disposed_registrations(), vec![77]);
    assert_eq!(r.request_registration_info(1), Ok(last));
    // A second cleanup without new releases changes nothing.
    assert!(r.cleanup_disposed_registrations().is_empty());
    assert_eq!(r.request_registration_info(2), Err(CommonErrors::NoSpaceLeft));
}

#[test]
fn releasing_an_unknown_key_beyond_the_table_is_ignored() {
    let mut r = Registrations::new();
    let k = r.request_registration_info(5).unwrap();
    r.release_registration_info(REGISTRATIONS_CAPACITY + 1);
    r.schedule_registration_for_disposal(REGISTRATIONS_CAPACITY + 7);
    assert!(r.cleanup_disposed_registrations().is_empty());
    r.release_registration_info(k);
    r.release_registration_info(k);
}

#[test]
fn cleanup_releases_in_reverse_order_and_once() {
    let mut r = Registrations::new();
    let a = r.request_registration_info(100).unwrap();
    let b = r.request_registration_info(200).unwrap();
    r.schedule_registration_for_disposal(a);
    r.schedule_registration_for_disposal(b);
    r.schedule_registration_for_disposal(a);
    assert_eq!(r.cleanup_disposed_registrations(), vec![100, 200]);
}
