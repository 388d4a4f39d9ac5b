use pallet_zero::model::{Call, DispatchError, Event, Origin, ZeroError, DEFAULT_IDENTITY};
use pallet_zero::state::{ensure_signed, StateModule};

#[test]
fn new_module_defaults() {
    let m = StateModule::new();
    assert_eq!(m.counter_of(1), None);
    assert_eq!(m.counter_of(DEFAULT_IDENTITY), None);
    assert_eq!(m.cached_identity(), DEFAULT_IDENTITY);
    assert!(m.event_log().is_empty());
}

#[test]
fn ensure_signed_extracts_caller() {
    assert_eq!(ensure_signed(Origin::Signed(9)), Ok(9));
    assert_eq!(ensure_signed(Origin::Unauthenticated), Err(DispatchError::BadOrigin));
}

#[test]
fn do_something_emits_input_and_touches_nothing() {
    let mut m = StateModule::new();
    assert_eq!(m.do_something(Origin::Signed(3), 42), Ok(()));
    assert_eq!(m.event_log().as_slice(), &[Event::EmitInput(3, 42)]);
    assert_eq!(m.counter_of(3), None);
    assert_eq!(m.cached_identity(), DEFAULT_IDENTITY);
}

#[test]
fn insert_then_increase_accumulates() {
    let mut m = StateModule::new();
    assert_eq!(m.insert_entry(Origin::Signed(7), 7), Ok(()));
    assert_eq!(m.increase_entry(Origin::Signed(7), 5), Ok(()));
    assert_eq!(m.counter_of(7), Some(12));
    assert_eq!(
        m.event_log().as_slice(),
        &[Event::InsertEntry(7, 7), Event::IncreaseEntry(7, 7, 12)]
    );
}

#[test]
fn missing_entry_rejected() {
    let mut m = StateModule::new();
    assert_eq!(
        m.get_entry(Origin::Signed(1), 2),
        Err(DispatchError::Module(ZeroError::NoValueStored))
    );
    assert_eq!(
        m.increase_entry(Origin::Signed(2), 10),
        Err(DispatchError::Module(ZeroError::NoValueStored))
    );
    assert!(m.event_log().is_empty());
    assert_eq!(m.counter_of(2), None);
}

#[test]
fn increase_past_max_rejected() {
    let mut m = StateModule::new();
    assert_eq!(m.insert_entry(Origin::Signed(4), u32::MAX), Ok(()));
    assert_eq!(
        m.increase_entry(Origin::Signed(4), 1),
        Err(DispatchError::Module(ZeroError::MaxValueReached))
    );
    assert_eq!(m.counter_of(4), Some(u32::MAX));
    assert_eq!(m.event_log().as_slice(), &[Event::InsertEntry(4, u32::MAX)]);
}

#[test]
fn increase_up_to_max_succeeds() {
    let mut m = StateModule::new();
    assert_eq!(m.insert_entry(Origin::Signed(4), u32::MAX - 5), Ok(()));
    assert_eq!(m.increase_entry(Origin::Signed(4), 5), Ok(()));
    assert_eq!(m.counter_of(4), Some(u32::MAX));
    assert_eq!(
        m.increase_entry(Origin::Signed(4), 1),
        Err(DispatchError::Module(ZeroError::MaxValueReached))
    );
    assert_eq!(m.counter_of(4), Some(u32::MAX));
}

#[test]
fn increase_by_zero_reports_transition() {
    let mut m = StateModule::new();
    assert_eq!(m.insert_entry(Origin::Signed(5), 11), Ok(()));
    assert_eq!(m.increase_entry(Origin::Signed(5), 0), Ok(()));
    assert_eq!(m.counter_of(5), Some(11));
    assert_eq!(m.event_log()[1], Event::IncreaseEntry(5, 11, 11));
}

#[test]
fn insert_overwrites() {
    let mut m = StateModule::new();
    assert_eq!(m.insert_entry(Origin::Signed(8), 1), Ok(()));
    assert_eq!(m.insert_entry(Origin::Signed(8), 2), Ok(()));
    assert_eq!(m.counter_of(8), Some(2));
    assert_eq!(
        m.event_log().as_slice(),
        &[Event::InsertEntry(8, 1), Event::InsertEntry(8, 2)]
    );
}

#[test]
fn cache_handover() {
    let mut m = StateModule::new();
    assert_eq!(m.update_cache(Origin::Signed(10)), Ok(()));
    assert_eq!(m.update_cache(Origin::Signed(20)), Ok(()));
    assert_eq!(m.cached_identity(), 20);
    assert_eq!(
        m.event_log().as_slice(),
        &[
            Event::UpdateCache(DEFAULT_IDENTITY, 10),
            Event::UpdateCache(10, 20),
        ]
    );
}

#[test]
fn default_identity_may_cache_itself() {
    let mut m = StateModule::new();
    assert_eq!(m.update_cache(Origin::Signed(DEFAULT_IDENTITY)), Ok(()));
    assert_eq!(m.cached_identity(), DEFAULT_IDENTITY);
    assert_eq!(
        m.event_log().as_slice(),
        &[Event::UpdateCache(DEFAULT_IDENTITY, DEFAULT_IDENTITY)]
    );
}

#[test]
fn unauthenticated_rejected_by_every_operation() {
    let mut m = StateModule::new();
    m.insert_entry(Origin::Signed(6), 30).unwrap();
    let calls = [
        Call::DoSomething(1),
        Call::InsertEntry(2),
        Call::GetEntry(6),
        Call::IncreaseEntry(3),
        Call::UpdateCache,
    ];
    for call in calls {
        assert_eq!(
            m.dispatch(Origin::Unauthenticated, call),
            Err(DispatchError::BadOrigin)
        );
    }
    assert_eq!(m.counter_of(6), Some(30));
    assert_eq!(m.cached_identity(), DEFAULT_IDENTITY);
    assert_eq!(m.event_log().as_slice(), &[Event::InsertEntry(6, 30)]);
}

#[test]
fn dispatch_routes_each_call() {
    let mut m = StateModule::new();
    assert_eq!(m.dispatch(Origin::Signed(9), Call::InsertEntry(40)), Ok(()));
    assert_eq!(m.dispatch(Origin::Signed(9), Call::IncreaseEntry(2)), Ok(()));
    assert_eq!(m.dispatch(Origin::Signed(9), Call::GetEntry(9)), Ok(()));
    assert_eq!(m.dispatch(Origin::Signed(9), Call::DoSomething(5)), Ok(()));
    assert_eq!(m.dispatch(Origin::Signed(9), Call::UpdateCache), Ok(()));
    assert_eq!(m.counter_of(9), Some(42));
    assert_eq!(m.cached_identity(), 9);
    assert_eq!(
        m.event_log().as_slice(),
        &[
            Event::InsertEntry(9, 40),
            Event::IncreaseEntry(9, 40, 42),
            Event::GetEntry(9, 42),
            Event::EmitInput(9, 5),
            Event::UpdateCache(DEFAULT_IDENTITY, 9),
        ]
    );
}

#[test]
fn get_entry_pairs_caller_with_targets_value() {
    let mut m = StateModule::new();
    assert_eq!(m.insert_entry(Origin::Signed(1), 77), Ok(()));
    assert_eq!(m.get_entry(Origin::Signed(2), 1), Ok(()));
    // The event reports the caller beside the target's stored value; the
    // target itself is not named.
    assert_eq!(m.event_log()[1], Event::GetEntry(2, 77));
}

#[test]
fn end_to_end_scenario() {
    let a: u64 = 100;
    let mut m = StateModule::new();

    assert_eq!(m.insert_entry(Origin::Signed(a), 100), Ok(()));
    assert_eq!(m.counter_of(a), Some(100));
    assert_eq!(m.event_log()[0], Event::InsertEntry(a, 100));

    assert_eq!(m.increase_entry(Origin::Signed(a), 50), Ok(()));
    assert_eq!(m.counter_of(a), Some(150));
    assert_eq!(m.event_log()[1], Event::IncreaseEntry(a, 100, 150));

    assert_eq!(m.get_entry(Origin::Signed(a), a), Ok(()));
    assert_eq!(m.event_log()[2], Event::GetEntry(a, 150));
    assert_eq!(m.counter_of(a), Some(150));
    assert_eq!(m.event_log().len(), 3);
}
