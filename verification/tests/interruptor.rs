use bladerf_power::interruptor::{
    interrupt_response, InterruptResponse, Interruptor, FORCED_EXIT_OTHER, FORCED_EXIT_UNIX,
};

#[test]
fn new_latch_is_clear() {
    let intr = Interruptor::new();
    assert!(!intr.is_set());
}

#[test]
fn set_latches() {
    let intr = Interruptor::new();
    intr.set();
    assert!(intr.is_set());
    assert!(intr.is_set());
}

#[test]
fn set_is_idempotent() {
    let intr = Interruptor::new();
    intr.set();
    intr.set();
    assert!(intr.is_set());
}

#[test]
fn clones_share_one_latch() {
    let intr = Interruptor::new();
    let other = intr.clone();
    let third = other.clone();
    assert!(!other.is_set());
    third.set();
    assert!(intr.is_set());
    assert!(other.is_set());
}

#[test]
fn latches_are_independent() {
    let a = Interruptor::new();
    let b = Interruptor::new();
    a.set();
    assert!(a.is_set());
    assert!(!b.is_set());
}

#[test]
fn first_interrupt_requests_shutdown() {
    assert_eq!(interrupt_response(false, true), InterruptResponse::RequestShutdown);
    assert_eq!(interrupt_response(false, false), InterruptResponse::RequestShutdown);
}

#[test]
fn second_interrupt_forces_exit() {
    assert_eq!(interrupt_response(true, true), InterruptResponse::ForceExit(130));
    assert_eq!(interrupt_response(true, false), InterruptResponse::ForceExit(-1073741510));
    assert_eq!(FORCED_EXIT_UNIX, 128 + 2);
    assert_eq!(FORCED_EXIT_OTHER as u32, 0xC000013A);
}

#[test]
fn handler_sets_then_escalates() {
    let intr = Interruptor::new();
    let first = interrupt_response(intr.is_set(), true);
    assert_eq!(first, InterruptResponse::RequestShutdown);
    intr.set();
    let second = interrupt_response(intr.is_set(), true);
    assert_eq!(second, InterruptResponse::ForceExit(FORCED_EXIT_UNIX));
}
