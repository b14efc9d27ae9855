use call_bridge::error::BridgeError;
use call_bridge::slot::CallSlot;

#[test]
fn a_new_slot_is_vacant() {
    let slot: CallSlot<Vec<i64>, u8> = CallSlot::new();
    assert!(slot.is_vacant());
}

#[test]
fn a_stored_call_is_handed_out_once() {
    let mut slot: CallSlot<Vec<i64>, &str> = CallSlot::new();
    assert_eq!(slot.store(vec![5, 4], "sender"), Ok(()));
    assert!(!slot.is_vacant());
    assert_eq!(slot.recv_args(), Ok(vec![5, 4]));
    assert!(!slot.is_vacant());
    assert_eq!(slot.take_sender(), Ok("sender"));
    assert!(slot.is_vacant());
    assert_eq!(slot.recv_args(), Err(BridgeError::Protocol));
    assert_eq!(slot.take_sender(), Err(BridgeError::Protocol));
}

#[test]
fn an_occupied_slot_refuses_a_second_call() {
    let mut slot: CallSlot<i64, i64> = CallSlot::new();
    assert_eq!(slot.store(1, 10), Ok(()));
    assert_eq!(slot.store(2, 20), Err(BridgeError::Protocol));
    assert_eq!(slot.recv_args(), Ok(1));
    // The sender of the first call is still there: the slot is not free yet.
    assert_eq!(slot.store(3, 30), Err(BridgeError::Protocol));
    assert_eq!(slot.take_sender(), Ok(10));
    assert_eq!(slot.store(4, 40), Ok(()));
    assert_eq!(slot.take_sender(), Ok(40));
    assert_eq!(slot.recv_args(), Ok(4));
}

#[test]
fn an_empty_slot_has_nothing_to_hand_out() {
    let mut slot: CallSlot<String, String> = CallSlot::new();
    assert_eq!(slot.recv_args(), Err(BridgeError::Protocol));
    assert_eq!(slot.take_sender(), Err(BridgeError::Protocol));
    assert!(slot.is_vacant());
}
