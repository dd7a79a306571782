use preroll_test_utils::connection::{
    ConnectionState, ConnectionWrapper, ProtocolError, Teardown, TransactionHandle,
};

fn wrapper() -> ConnectionWrapper {
    ConnectionWrapper::new(TransactionHandle { id: 7 })
}

#[test]
fn a_new_wrapper_is_transacting_and_free() {
    let mut wrapper = wrapper();
    assert!(wrapper.is_free());
    let guard = wrapper.acquire_shared().unwrap();
    assert_eq!(
        wrapper.state(&guard),
        ConnectionState::Transacting(TransactionHandle { id: 7 })
    );
}

#[test]
fn shared_guards_do_not_block_each_other() {
    let mut wrapper = wrapper();
    let first = wrapper.acquire_shared().unwrap();
    let second = wrapper.acquire_shared().unwrap();
    let third = wrapper.acquire_shared().unwrap();
    assert!(!wrapper.is_free());
    assert_eq!(wrapper.state(&first), wrapper.state(&second));
    assert_eq!(wrapper.release_shared(first), Ok(()));
    assert_eq!(wrapper.release_shared(second), Ok(()));
    assert_eq!(wrapper.release_shared(third), Ok(()));
    assert!(wrapper.is_free());
}

#[test]
fn exclusive_waits_for_every_shared_guard() {
    let mut wrapper = wrapper();
    let first = wrapper.acquire_shared().unwrap();
    let second = wrapper.acquire_shared().unwrap();
    assert!(wrapper.acquire_exclusive().is_none());
    wrapper.release_shared(first).unwrap();
    assert!(wrapper.acquire_exclusive().is_none());
    wrapper.release_shared(second).unwrap();
    assert!(wrapper.acquire_exclusive().is_some());
}

#[test]
fn exclusive_excludes_every_other_guard() {
    let mut wrapper = wrapper();
    let guard = wrapper.acquire_exclusive().unwrap();
    assert!(wrapper.acquire_shared().is_none());
    assert!(wrapper.acquire_exclusive().is_none());
    assert!(!wrapper.is_free());
    wrapper.release_exclusive(guard).unwrap();
    assert!(wrapper.is_free());
    assert!(wrapper.acquire_shared().is_some());
}

#[test]
fn an_unreleased_exclusive_guard_keeps_handlers_waiting() {
    let mut wrapper = wrapper();
    let _held = wrapper.acquire_exclusive().unwrap();
    for _ in 0..100 {
        assert!(wrapper.acquire_shared().is_none());
    }
}

#[test]
fn a_change_under_the_exclusive_guard_is_seen_by_the_next_shared_guard() {
    let mut wrapper = wrapper();
    let writer = wrapper.acquire_exclusive().unwrap();
    assert_eq!(
        wrapper.disconnect(&writer),
        Ok(Teardown::Rollback(TransactionHandle { id: 7 }))
    );
    assert_eq!(wrapper.state_mut(&writer), ConnectionState::Disconnected);
    assert_eq!(wrapper.begin(&writer, TransactionHandle { id: 8 }), Ok(()));
    wrapper.release_exclusive(writer).unwrap();
    let reader = wrapper.acquire_shared().unwrap();
    assert_eq!(
        wrapper.state(&reader),
        ConnectionState::Transacting(TransactionHandle { id: 8 })
    );
}

#[test]
fn an_open_transaction_is_never_replaced() {
    let mut wrapper = wrapper();
    let writer = wrapper.acquire_exclusive().unwrap();
    assert_eq!(
        wrapper.begin(&writer, TransactionHandle { id: 9 }),
        Err(ProtocolError::AlreadyTransacting)
    );
    assert_eq!(
        wrapper.state_mut(&writer),
        ConnectionState::Transacting(TransactionHandle { id: 7 })
    );
}

#[test]
fn the_state_changes_only_under_the_exclusive_guard() {
    let mut holder = wrapper();
    let writer = holder.acquire_exclusive().unwrap();
    let mut other = wrapper();
    assert_eq!(other.disconnect(&writer), Err(ProtocolError::NotHeld));
    assert_eq!(
        other.begin(&writer, TransactionHandle { id: 1 }),
        Err(ProtocolError::NotHeld)
    );
    assert_eq!(other.close(), Teardown::Rollback(TransactionHandle { id: 7 }));
}

#[test]
fn a_release_without_a_hold_is_refused() {
    let mut holder = wrapper();
    let reader = holder.acquire_shared().unwrap();
    let mut other = wrapper();
    assert_eq!(other.release_shared(reader), Err(ProtocolError::NotHeld));
    assert!(other.is_free());
    let mut third = wrapper();
    let writer = third.acquire_exclusive().unwrap();
    assert_eq!(other.release_exclusive(writer), Err(ProtocolError::NotHeld));
}

#[test]
fn a_fixture_written_under_the_exclusive_guard_is_read_and_rolled_back() {
    let mut wrapper = wrapper();
    let setup = wrapper.acquire_exclusive().unwrap();
    assert_eq!(
        wrapper.state_mut(&setup),
        ConnectionState::Transacting(TransactionHandle { id: 7 })
    );
    wrapper.release_exclusive(setup).unwrap();
    let handler = wrapper.acquire_shared().unwrap();
    assert_eq!(
        wrapper.state(&handler),
        ConnectionState::Transacting(TransactionHandle { id: 7 })
    );
    wrapper.release_shared(handler).unwrap();
    assert_eq!(wrapper.close(), Teardown::Rollback(TransactionHandle { id: 7 }));
}

#[test]
fn a_disconnected_wrapper_leaves_nothing_to_roll_back() {
    let mut wrapper = wrapper();
    let writer = wrapper.acquire_exclusive().unwrap();
    wrapper.disconnect(&writer).unwrap();
    assert_eq!(wrapper.disconnect(&writer), Ok(Teardown::Nothing));
    wrapper.release_exclusive(writer).unwrap();
    assert_eq!(wrapper.close(), Teardown::Nothing);
}
