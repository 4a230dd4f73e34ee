use superteam101::errors::CounterError;
use superteam101::record::Superteam101;
use superteam101::service::{Payer, Slot, RECORD_SPACE};

#[test]
fn increment_adds_one_across_range() {
    for start in [0u8, 1, 7, 100, 254] {
        let mut rec = Superteam101 { count: start };
        assert_eq!(rec.increment(), Ok(()));
        assert_eq!(rec.count(), start + 1);
    }
}

#[test]
fn increment_at_max_fails_and_leaves_value() {
    let mut rec = Superteam101 { count: 255 };
    assert_eq!(rec.increment(), Err(CounterError::ArithmeticOverflow));
    assert_eq!(rec.count(), 255);
}

#[test]
fn decrement_subtracts_one_across_range() {
    for start in [1u8, 2, 10, 128, 255] {
        let mut rec = Superteam101 { count: start };
        assert_eq!(rec.decrement(), Ok(()));
        assert_eq!(rec.count(), start - 1);
    }
}

#[test]
fn decrement_at_zero_fails_and_leaves_value() {
    let mut rec = Superteam101 { count: 0 };
    assert_eq!(rec.decrement(), Err(CounterError::ArithmeticUnderflow));
    assert_eq!(rec.count(), 0);
}

#[test]
fn set_overwrites_any_prior_value() {
    for (prior, value) in [(0u8, 255u8), (255, 0), (3, 3), (17, 200)] {
        let mut rec = Superteam101 { count: prior };
        rec.set(value);
        assert_eq!(rec.count(), value);
    }
}

#[test]
fn set_twice_with_same_value_changes_nothing_more() {
    let mut rec = Superteam101 { count: 42 };
    rec.set(9);
    let once = rec;
    rec.set(9);
    assert_eq!(rec, once);
}

#[test]
fn reservation_covers_header_and_counter_field() {
    assert_eq!(RECORD_SPACE, 9);
}

#[test]
fn initialize_fresh_storage_starts_at_zero() {
    let mut slot = Slot::new();
    let mut payer = Payer { id: 7, balance: 100 };
    assert!(!slot.has_record());
    assert_eq!(slot.initialize(&mut payer), Ok(()));
    assert!(slot.has_record());
    assert_eq!(slot.count(), Some(0));
    assert_eq!(payer.balance, 100 - RECORD_SPACE);
}

#[test]
fn initialize_fails_on_occupied_location() {
    let mut slot = Slot::new();
    let mut payer = Payer { id: 7, balance: 100 };
    assert_eq!(slot.initialize(&mut payer), Ok(()));
    assert_eq!(slot.set(5), Ok(()));
    let mut other = Payer { id: 8, balance: 100 };
    assert_eq!(
        slot.initialize(&mut other),
        Err(CounterError::AllocationError)
    );
    assert_eq!(slot.count(), Some(5));
    assert_eq!(other.balance, 100);
}

#[test]
fn initialize_fails_on_underfunded_payer() {
    let mut slot = Slot::new();
    let mut payer = Payer {
        id: 7,
        balance: RECORD_SPACE - 1,
    };
    assert_eq!(
        slot.initialize(&mut payer),
        Err(CounterError::AllocationError)
    );
    assert!(!slot.has_record());
    assert_eq!(payer.balance, RECORD_SPACE - 1);
}

#[test]
fn close_requires_matching_authority() {
    let mut slot = Slot::new();
    let mut payer = Payer { id: 7, balance: 100 };
    assert_eq!(slot.initialize(&mut payer), Ok(()));
    let mut intruder = Payer { id: 8, balance: 0 };
    assert_eq!(
        slot.close(&mut intruder),
        Err(CounterError::AuthorizationError)
    );
    assert!(slot.has_record());
    assert_eq!(intruder.balance, 0);
}

#[test]
fn close_returns_reservation_and_record_is_gone() {
    let mut slot = Slot::new();
    let mut payer = Payer { id: 7, balance: 100 };
    assert_eq!(slot.initialize(&mut payer), Ok(()));
    assert_eq!(payer.balance, 100 - RECORD_SPACE);
    assert_eq!(slot.close(&mut payer), Ok(()));
    assert_eq!(payer.balance, 100);
    assert!(!slot.has_record());
    assert_eq!(slot.count(), None);
}

#[test]
fn closed_location_rejects_every_operation() {
    let mut slot = Slot::new();
    let mut payer = Payer { id: 7, balance: 100 };
    assert_eq!(slot.initialize(&mut payer), Ok(()));
    assert_eq!(slot.close(&mut payer), Ok(()));
    assert_eq!(slot.increment(), Err(CounterError::RecordNotFound));
    assert_eq!(slot.decrement(), Err(CounterError::RecordNotFound));
    assert_eq!(slot.set(1), Err(CounterError::RecordNotFound));
    assert_eq!(slot.close(&mut payer), Err(CounterError::RecordNotFound));
    assert!(!slot.has_record());
}

#[test]
fn operations_need_an_existing_record() {
    let mut slot = Slot::new();
    let mut payer = Payer { id: 7, balance: 100 };
    assert_eq!(slot.increment(), Err(CounterError::RecordNotFound));
    assert_eq!(slot.decrement(), Err(CounterError::RecordNotFound));
    assert_eq!(slot.set(1), Err(CounterError::RecordNotFound));
    assert_eq!(slot.close(&mut payer), Err(CounterError::RecordNotFound));
    assert_eq!(payer.balance, 100);
}

#[test]
fn full_lifecycle_trace() {
    let mut slot = Slot::new();
    let mut payer = Payer { id: 7, balance: 100 };
    assert_eq!(slot.initialize(&mut payer), Ok(()));
    assert_eq!(slot.count(), Some(0));
    assert_eq!(slot.increment(), Ok(()));
    assert_eq!(slot.count(), Some(1));
    assert_eq!(slot.increment(), Ok(()));
    assert_eq!(slot.count(), Some(2));
    assert_eq!(slot.increment(), Ok(()));
    assert_eq!(slot.count(), Some(3));
    assert_eq!(slot.set(10), Ok(()));
    assert_eq!(slot.count(), Some(10));
    assert_eq!(slot.decrement(), Ok(()));
    assert_eq!(slot.count(), Some(9));
    assert_eq!(slot.decrement(), Ok(()));
    assert_eq!(slot.count(), Some(8));
    assert_eq!(slot.close(&mut payer), Ok(()));
    assert!(!slot.has_record());
    assert_eq!(payer.balance, 100);
}
