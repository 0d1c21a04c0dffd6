use kyron::mio_types::{IoEvent, IoEventInterest, IoId};
use kyron::readiness::{
    ReadinessState, READINESS_STATE_MASK, READINESS_STATE_READABLE, READINESS_STATE_WRITABLE, READINESS_TICK_MASK,
};

fn create_state_with_bits(full_value: u32) -> ReadinessState {
    ReadinessState::from(full_value)
}

#[test]
fn readiness_state_tick_extraction() {
    let state = create_state_with_bits(0x1234_5678);
    assert_eq!(state.tick(), 0x1234);

    let state = create_state_with_bits(0x0000_FFFF);
    assert_eq!(state.tick(), 0x0000);

    let state = create_state_with_bits(0xFFFF_0000);
    assert_eq!(state.tick(), 0xFFFF);
}

#[test]
fn readiness_state_is_readable() {
    let state = create_state_with_bits(0x0000_0001);
    assert!(state.is_readable());

    let state = create_state_with_bits(0x0000_0002);
    assert!(!state.is_readable());

    let state = create_state_with_bits(0xFFFF_FFFE);
    assert!(!state.is_readable());

    let state = create_state_with_bits(0xFFFF_FFFF);
    assert!(state.is_readable());
}

#[test]
fn readiness_state_is_writable() {
    let state = create_state_with_bits(0x0000_0002);
    assert!(state.is_writable());

    let state = create_state_with_bits(0x0000_0001);
    assert!(!state.is_writable());

    let state = create_state_with_bits(0xFFFF_FFFD);
    assert!(!state.is_writable());

    let state = create_state_with_bits(0xFFFF_FFFF);
    assert!(state.is_writable());
}

#[test]
fn readiness_state_clear_readable() {
    let mut state = create_state_with_bits(0x1234_0003);
    state.clear_readable();
    assert!(!state.is_readable());
    assert_eq!(state.tick(), 0x1234);

    let mut state = create_state_with_bits(0x5678_0002);
    state.clear_readable();
    assert!(!state.is_readable());
    assert_eq!(state.tick(), 0x5678);

    let mut state = create_state_with_bits(0xABCD_00FF);
    let writable_before = state.is_writable();
    state.clear_readable();
    assert!(!state.is_readable());
    assert_eq!(state.is_writable(), writable_before);
    assert_eq!(state.tick(), 0xABCD);
}

#[test]
fn readiness_state_clear_writable() {
    let mut state = create_state_with_bits(0x9876_0003);
    state.clear_writable();
    assert!(!state.is_writable());
    assert_eq!(state.tick(), 0x9876);

    let mut state = create_state_with_bits(0x4321_0001);
    state.clear_writable();
    assert!(!state.is_writable());
    assert_eq!(state.tick(), 0x4321);

    let mut state = create_state_with_bits(0xDEAD_00FF);
    let readable_before = state.is_readable();
    state.clear_writable();
    assert!(!state.is_writable());
    assert_eq!(state.is_readable(), readable_before);
    assert_eq!(state.tick(), 0xDEAD);
}

#[test]
fn readiness_state_clear_with_mask() {
    let mut state = create_state_with_bits(0x1111_00FF);
    let mask = create_state_with_bits(0x0000_000F);
    state.clear(mask);
    assert_eq!(state.tick(), 0x1111);

    let mut state = create_state_with_bits(0x2222_00FF);
    let state_before = state;
    let mask = create_state_with_bits(0x0000_0000);
    state.clear(mask);
    assert_eq!(state, state_before);

    let mut state = create_state_with_bits(0x3333_FFFF);
    let mask = create_state_with_bits(0x0000_FFFF);
    state.clear(mask);
    assert_eq!(state.tick(), 0x3333);

    let mut state = create_state_with_bits(0x4444_0003);
    let mask = create_state_with_bits(0x9999_0001);
    state.clear(mask);
    assert_eq!(state.tick(), 0x4444);
}

#[test]
fn readiness_state_union() {
    let state1 = create_state_with_bits(0x1111_0001);
    let state2 = create_state_with_bits(0x2222_0002);
    let result = state1.union(state2);
    assert!(result.is_readable());
    assert!(result.is_writable());

    let state1 = create_state_with_bits(0x1234_0001);
    let state2 = create_state_with_bits(0x1234_0002);
    let result = state1.union(state2);
    assert_eq!(result.tick(), 0x1234);

    let state1 = create_state_with_bits(0x1111_0001);
    let state2 = create_state_with_bits(0x2222_0002);
    assert_eq!(state1.union(state2).extract_state(), state2.union(state1).extract_state());
}

#[test]
fn readiness_state_intersection() {
    let state1 = create_state_with_bits(0x1111_0003);
    let state2 = create_state_with_bits(0x2222_0001);
    let result = state1.intersection(state2);
    assert!(result.is_some());
    if let Some(intersected) = result {
        assert!(intersected.is_readable());
        assert!(!intersected.is_writable());
    }

    let state1 = create_state_with_bits(0x3333_0001);
    let state2 = create_state_with_bits(0x4444_0002);
    let result = state1.intersection(state2);
    assert!(result.is_none());

    let state = create_state_with_bits(0x5555_0003);
    let result = state.intersection(state);
    assert!(result.is_some());
    assert_eq!(result.unwrap(), state);

    let state1 = create_state_with_bits(0x6666_0003);
    let state2 = create_state_with_bits(0x7777_0000);
    let result = state1.intersection(state2);
    assert!(result.is_none());

    let state1 = create_state_with_bits(0x1111_0003);
    let state2 = create_state_with_bits(0x2222_0001);
    assert_eq!(
        state1.intersection(state2).unwrap().extract_state(),
        state2.intersection(state1).unwrap().extract_state()
    );
}

#[test]
fn readiness_state_increment_tick() {
    let mut state = create_state_with_bits(0x1234_0003);
    state.increment_tick();
    assert_eq!(state.tick(), 0x1235);
    assert!(state.is_readable());
    assert!(state.is_writable());

    let mut state = create_state_with_bits(0xFFFF_0001);
    state.increment_tick();
    assert_eq!(state.tick(), 0x0000);
    assert!(state.is_readable());

    let mut state = create_state_with_bits(0x0000_0002);
    for i in 1..=100 {
        state.increment_tick();
        assert_eq!(state.tick(), i);
        assert!(state.is_writable());
    }
}

#[test]
fn readiness_state_from_components() {
    let state = ReadinessState::from_components(0x1234, 0x5678);
    assert_eq!(state.extract_state(), 0x1234);
    assert_eq!(state.extract_tick(), 0x5678);

    let state = ReadinessState::from_components(0x0000, 0x0000);
    assert_eq!(state.extract_state(), 0x0000);
    assert_eq!(state.extract_tick(), 0x0000);

    let state = ReadinessState::from_components(0xFFFF, 0xFFFF);
    assert_eq!(state.extract_state(), 0xFFFF);
    assert_eq!(state.extract_tick(), 0xFFFF);
}

#[test]
fn readiness_state_extract_state() {
    let state = create_state_with_bits(0x1234_5678);
    assert_eq!(state.extract_state(), 0x5678);

    let state = create_state_with_bits(0xFFFF_0000);
    assert_eq!(state.extract_state(), 0x0000);

    let state = create_state_with_bits(0x0000_FFFF);
    assert_eq!(state.extract_state(), 0xFFFF);
}

#[test]
fn readiness_state_extract_tick() {
    let state = create_state_with_bits(0x1234_5678);
    assert_eq!(state.extract_tick(), 0x1234);

    let state = create_state_with_bits(0x0000_FFFF);
    assert_eq!(state.extract_tick(), 0x0000);

    let state = create_state_with_bits(0xFFFF_0000);
    assert_eq!(state.extract_tick(), 0xFFFF);
}

#[test]
fn readiness_state_clone_and_copy() {
    let state1 = create_state_with_bits(0x1234_5678);
    let state2 = state1;
    #[allow(clippy::clone_on_copy)]
    let state3 = state1.clone();

    assert_eq!(state1, state2);
    assert_eq!(state1, state3);
    assert_eq!(state2, state3);
}

#[test]
fn readiness_state_partial_eq() {
    let state1 = create_state_with_bits(0x1234_5678);
    let state2 = create_state_with_bits(0x1234_5678);
    let state3 = create_state_with_bits(0x1234_5679);

    assert_eq!(state1, state2);
    assert_ne!(state1, state3);
    assert_ne!(state2, state3);
}

#[test]
fn readiness_state_edge_cases_bit_manipulation() {
    let state = create_state_with_bits(0xAAAA_5555);
    assert_eq!(state.extract_tick(), 0xAAAA);
    assert_eq!(state.extract_state(), 0x5555);

    let state = create_state_with_bits(0x5555_AAAA);
    assert_eq!(state.extract_tick(), 0x5555);
    assert_eq!(state.extract_state(), 0xAAAA);

    for bit in 0..16 {
        let state_bit = 1u16 << bit;
        let tick_bit = 1u16 << bit;

        let state = ReadinessState::from_components(state_bit, tick_bit);
        assert_eq!(state.extract_state(), state_bit);
        assert_eq!(state.extract_tick(), tick_bit);
    }
}

#[test]
fn readiness_state_mask_constants() {
    assert_eq!(READINESS_STATE_MASK, 0x0000FFFF);
    assert_eq!(READINESS_TICK_MASK, 0xFFFF0000);

    assert_eq!(READINESS_STATE_MASK & READINESS_TICK_MASK, 0);

    assert_eq!(READINESS_STATE_MASK | READINESS_TICK_MASK, 0xFFFFFFFF);
}

#[test]
fn readiness_state_complex_scenarios() {
    let mut state = create_state_with_bits(0x1000_0003);

    state.clear_readable();
    state.increment_tick();
    assert!(!state.is_readable());
    assert!(state.is_writable());
    assert_eq!(state.tick(), 0x1001);

    let other = create_state_with_bits(0x2000_0001);
    let result = state.union(other);
    assert!(result.is_readable());
    assert!(result.is_writable());
    assert_eq!(result.tick(), state.tick());

    let intersection = state.intersection(other);
    assert!(intersection.is_none());
}

#[test]
fn readiness_from_event_and_interest() {
    let event = IoEvent::new(IoId::new(7), IoEventInterest::readable_interest() | IoEventInterest::writable_interest());
    let state = ReadinessState::from_mio_event(&event);
    assert!(state.is_readable());
    assert!(state.is_writable());
    assert_eq!(state.tick(), 0);
    assert_eq!(u32::from(state), READINESS_STATE_READABLE | READINESS_STATE_WRITABLE);

    let from_interest = ReadinessState::from(IoEventInterest::writable_interest());
    assert!(!from_interest.is_readable());
    assert!(from_interest.is_writable());
    assert_eq!(from_interest.extract_state(), 2);
}

#[test]
fn readiness_union_keeps_left_tick_law() {
    let a = ReadinessState::from_components(0x0001, 7);
    let b = ReadinessState::from_components(0x0002, 9);
    assert_eq!(a.union(b).extract_state(), b.union(a).extract_state());
    assert_eq!(a.union(b).tick(), 7);
    assert_eq!(b.union(a).tick(), 9);

    let mut c = ReadinessState::from_components(0x00F3, 3);
    let mask = ReadinessState::from_components(0x0003, 0);
    c.clear(mask);
    assert!(c.intersection(mask).is_none());
    assert_eq!(c.extract_state(), 0x00F0);
}
