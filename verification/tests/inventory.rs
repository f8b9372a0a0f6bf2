use bigneon_core::errors::InventoryError;
use bigneon_core::inventory::InventoryLedger;

#[test]
fn reserve_and_release_track_remaining() {
    let mut ledger = InventoryLedger::new(1, 100);
    assert_eq!(100, ledger.remaining_ticket_count());

    let first = ledger.reserve(11, 10, 1001).unwrap();
    assert_eq!(90, ledger.remaining_ticket_count());

    ledger.reserve(11, 10, 1002).unwrap();
    assert_eq!(80, ledger.remaining_ticket_count());

    ledger.release(first.id, 4).unwrap();
    assert_eq!(84, ledger.remaining_ticket_count());

    // Reserving one more ticket than remains is a conflict...
    let error = ledger.reserve(11, 85, 1003).unwrap_err();
    assert!(matches!(error, InventoryError::InsufficientInventory));
    assert_eq!(84, ledger.remaining_ticket_count());

    // ...reserving exactly what remains drains the inventory.
    assert!(ledger.reserve(11, 84, 1003).is_ok());
    assert_eq!(0, ledger.remaining_ticket_count());
}

#[test]
fn concurrent_reservations_cannot_both_succeed() {
    // Two workers race to reserve 60 tickets each out of 100; the ledger
    // serializes them, so exactly one succeeds whichever goes first.
    let mut ledger = InventoryLedger::new(1, 100);
    let first = ledger.reserve(11, 60, 1001);
    let second = ledger.reserve(11, 60, 1002);
    assert!(first.is_ok());
    assert!(matches!(
        second.unwrap_err(),
        InventoryError::InsufficientInventory
    ));
    assert_eq!(40, ledger.remaining_ticket_count());
}

#[test]
fn release_beyond_reservation_is_rejected() {
    let mut ledger = InventoryLedger::new(1, 100);
    let item = ledger.reserve(11, 10, 1001).unwrap();
    ledger.release(item.id, 6).unwrap();
    // Releases are cumulative: 6 of the 10 are gone, releasing 5 more would
    // exceed the original reservation.
    let error = ledger.release(item.id, 5).unwrap_err();
    assert!(matches!(error, InventoryError::ReleaseExceedsReserved));
    ledger.release(item.id, 4).unwrap();
    assert_eq!(100, ledger.remaining_ticket_count());
}

#[test]
fn release_of_unknown_order_item_is_rejected() {
    let mut ledger = InventoryLedger::new(1, 100);
    let error = ledger.release(77, 1).unwrap_err();
    assert!(matches!(error, InventoryError::UnknownOrderItem));
}

#[test]
fn reserve_with_taken_order_item_id_is_rejected() {
    let mut ledger = InventoryLedger::new(1, 100);
    ledger.reserve(11, 10, 1001).unwrap();
    let error = ledger.reserve(11, 10, 1001).unwrap_err();
    assert!(matches!(error, InventoryError::DuplicateOrderItem));
    assert_eq!(90, ledger.remaining_ticket_count());
}

#[test]
fn reserving_zero_capacity_ledger() {
    let mut ledger = InventoryLedger::new(1, 0);
    assert_eq!(0, ledger.remaining_ticket_count());
    assert!(ledger.reserve(11, 0, 1001).is_ok());
    let error = ledger.reserve(11, 1, 1002).unwrap_err();
    assert!(matches!(error, InventoryError::InsufficientInventory));
}
