use kyron::futures::FutureState;
use kyron::mio_types::IoEventInterest;
use kyron::readiness::{ReadinessState, READINESS_STATE_READABLE, READINESS_STATE_WRITABLE};
use kyron::registration::{RegistrationInfo, WakerElem};

#[test]
fn registration_info_() {
    let _info: RegistrationInfo<u32> = RegistrationInfo::new(12);
}

#[test]
fn registration_info_tracking_key() {
    let info: RegistrationInfo<u32> = RegistrationInfo::new(12);
    assert_eq!(info.tracking_key(), Some(12));

    let none: RegistrationInfo<u32> = RegistrationInfo::new(usize::MAX);
    assert_eq!(none.tracking_key(), None);
}

#[test]
fn registration_info_clear_readiness() {
    // Nothing to clear (as no common intersection), should return false
    {
        let mut info: RegistrationInfo<u32> = RegistrationInfo::new(12);
        assert!(!info.clear_readiness(
            ReadinessState::from_components(READINESS_STATE_READABLE as u16, 0),
            IoEventInterest::readable_interest()
        ));
    }

    // Set means shall be cleared since tick is from same round
    {
        let mut info: RegistrationInfo<u32> = RegistrationInfo::new(12);
        let _ = info.wake(ReadinessState::from_components(READINESS_STATE_READABLE as u16, 1));

        assert!(info.clear_readiness(
            ReadinessState::from_components(READINESS_STATE_READABLE as u16, 1),
            IoEventInterest::readable_interest()
        ));
    }

    // Set but tick is from old round, shall not clear
    {
        let mut info: RegistrationInfo<u32> = RegistrationInfo::new(12);
        let _ = info.wake(ReadinessState::from_components(READINESS_STATE_READABLE as u16, 1));

        assert!(!info.clear_readiness(
            ReadinessState::from_components(READINESS_STATE_READABLE as u16, 0),
            IoEventInterest::readable_interest()
        ));
    }
}

#[test]
fn registration_info_is_ready() {
    {
        let info: RegistrationInfo<u32> = RegistrationInfo::new(12);
        assert!(info.is_ready(IoEventInterest::readable_interest()).is_none());
    }

    {
        let mut info: RegistrationInfo<u32> = RegistrationInfo::new(12);
        let _ = info.wake(ReadinessState::from_components(READINESS_STATE_READABLE as u16, 1));

        let res = info.is_ready(IoEventInterest::readable_interest());

        assert!(res.is_some());
        assert!(res.unwrap().is_readable());
    }

    {
        let mut info: RegistrationInfo<u32> = RegistrationInfo::new(12);
        let _ = info.wake(ReadinessState::from_components(READINESS_STATE_WRITABLE as u16, 1));
        let res = info.is_ready(IoEventInterest::writable_interest());

        assert!(res.is_some());
        assert!(res.unwrap().is_writable());
    }
}

#[test]
fn registration_info_poll_wakes() {
    const NON_CALL: u32 = 0;
    const CALLED: u32 = 1;
    const READ_CALLED: u32 = 2;

    {
        let mut info: RegistrationInfo<u32> = RegistrationInfo::new(12);
        let _ = info.poll_register_interest(IoEventInterest::writable_interest(), CALLED);
        let _ = info.poll_register_interest(IoEventInterest::readable_interest(), NON_CALL);

        let woken = info.wake(ReadinessState::from_components(READINESS_STATE_WRITABLE as u16, 0));
        assert_eq!(woken, vec![CALLED]);
    }

    {
        let mut info: RegistrationInfo<u32> = RegistrationInfo::new(12);
        let _ = info.poll_register_interest(IoEventInterest::writable_interest(), NON_CALL);
        let _ = info.poll_register_interest(IoEventInterest::readable_interest(), CALLED);

        let woken = info.wake(ReadinessState::from_components(READINESS_STATE_READABLE as u16, 0));
        assert_eq!(woken, vec![CALLED]);
    }

    {
        let mut info: RegistrationInfo<u32> = RegistrationInfo::new(12);
        let _ = info.poll_register_interest(IoEventInterest::writable_interest(), CALLED);
        let _ = info.poll_register_interest(IoEventInterest::readable_interest(), READ_CALLED);

        let woken = info.wake(ReadinessState::from_components(
            (READINESS_STATE_READABLE | READINESS_STATE_WRITABLE) as u16,
            0,
        ));
        assert_eq!(woken, vec![READ_CALLED, CALLED]);
    }

    {
        let mut info: RegistrationInfo<u32> = RegistrationInfo::new(12);
        let _ = info.poll_register_interest(IoEventInterest::writable_interest(), NON_CALL);
        let _ = info.poll_register_interest(IoEventInterest::readable_interest(), READ_CALLED);

        let woken = info.wake(ReadinessState::from_components(READINESS_STATE_READABLE as u16, 0));
        assert_eq!(woken, vec![READ_CALLED]);
    }
}

#[test]
fn registration_info_async_wakes() {
    let mut info: RegistrationInfo<u32> = RegistrationInfo::new(12);
    let r = IoEventInterest::readable_interest();
    let w = IoEventInterest::writable_interest();

    let elems = [(1u64, r), (2, r), (3, w), (4, w), (5, r | w)];
    for (id, interest) in elems {
        let ret = info.register_waiter(WakerElem { id, waker: Some(id as u32 * 10), interest });
        assert!(ret.1.is_none());
    }

    let woken = info.wake(ReadinessState::from_components(READINESS_STATE_READABLE as u16, 0));
    assert_eq!(woken, vec![10, 20, 50]);

    let woken = info.wake(ReadinessState::from_components(READINESS_STATE_WRITABLE as u16, 0));
    assert_eq!(woken, vec![30, 40]);
}

#[test]
fn registration_poll_ready_and_pending() {
    let mut info: RegistrationInfo<u32> = RegistrationInfo::new(3);
    let mut state = FutureState::default();

    let ret = info.poll_register_interest(IoEventInterest::writable_interest(), 7);
    assert!(state.assign_and_propagate(ret).is_none());
    assert_eq!(state, FutureState::Polled);

    let woken = info.wake(ReadinessState::from_components(READINESS_STATE_WRITABLE as u16, 0));
    assert_eq!(woken, vec![7]);

    let ret = info.poll_register_interest(IoEventInterest::writable_interest(), 8);
    let ready = state.assign_and_propagate(ret);
    assert_eq!(state, FutureState::Finished);
    let readiness = ready.unwrap();
    assert!(readiness.is_writable());
    assert_eq!(readiness.tick(), 1);
}

#[test]
fn registration_waiter_leaves_when_ready() {
    let mut info: RegistrationInfo<u32> = RegistrationInfo::new(3);
    let r = IoEventInterest::readable_interest();
    assert!(info.register_waiter(WakerElem { id: 1, waker: Some(1), interest: r }).1.is_none());
    assert!(info.poll_waiter(1, r).1.is_none());
    let (_, now) = info.mark_state(ReadinessState::from_components(READINESS_STATE_READABLE as u16, 0));
    assert_eq!(now.tick(), 1);
    let ret = info.poll_waiter(1, r);
    assert!(ret.1.unwrap().is_readable());
    assert!(!info.remove_waiter(1));
}

#[test]
fn registration_stale_tick_does_not_clear() {
    let mut info: RegistrationInfo<u32> = RegistrationInfo::new(3);
    let _ = info.wake(ReadinessState::from_components(READINESS_STATE_READABLE as u16, 0));
    let seen = info.is_ready(IoEventInterest::readable_interest()).unwrap();
    let _ = info.wake(ReadinessState::from_components(READINESS_STATE_WRITABLE as u16, 0));
    assert!(!info.clear_readiness(seen, IoEventInterest::readable_interest()));
    assert!(info.is_ready(IoEventInterest::readable_interest()).is_some());
    let fresh = info.is_ready(IoEventInterest::readable_interest()).unwrap();
    assert!(info.clear_readiness(fresh, IoEventInterest::readable_interest()));
    assert!(info.is_ready(IoEventInterest::readable_interest()).is_none());
    assert!(info.is_ready(IoEventInterest::writable_interest()).is_some());
}

#[test]
fn ready_waiter_leaves_and_others_stay() {
    let mut info: RegistrationInfo<u32> = RegistrationInfo::new(3);
    let rd = IoEventInterest::readable_interest();
    let wr = IoEventInterest::writable_interest();
    assert!(info.register_waiter(WakerElem { id: 1, waker: Some(10), interest: rd }).1.is_none());
    assert!(info.register_waiter(WakerElem { id: 2, waker: Some(20), interest: wr }).1.is_none());
    assert!(info.register_waiter(WakerElem { id: 3, waker: Some(30), interest: rd }).1.is_none());
    // A writable report wakes exactly the writable waiter.
    let woken = info.wake(ReadinessState::from_components(READINESS_STATE_WRITABLE as u16, 0));
    assert_eq!(woken, vec![20]);
    // A later readable report wakes the two readable waiters, in list order.
    let woken = info.wake(ReadinessState::from_components(READINESS_STATE_READABLE as u16, 0));
    assert_eq!(woken, vec![10, 30]);
}

#[test]
fn polling_a_ready_waiter_removes_only_it() {
    let mut info: RegistrationInfo<u32> = RegistrationInfo::new(3);
    let rd = IoEventInterest::readable_interest();
    let wr = IoEventInterest::writable_interest();
    assert!(info.register_waiter(WakerElem { id: 1, waker: Some(10), interest: wr }).1.is_none());
    assert!(info.register_waiter(WakerElem { id: 2, waker: Some(20), interest: rd }).1.is_none());
    info.mark_state(ReadinessState::from_components(READINESS_STATE_READABLE as u16, 0));
    assert!(info.poll_waiter(2, rd).1.is_some());
    assert!(!info.remove_waiter(2));
    assert!(info.remove_waiter(1));
}
