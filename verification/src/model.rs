//! The mathematical model of the module: identities, origins, calls,
//! errors, events, the abstract state, and the specification of every
//! state transition.

use vstd::prelude::*;

verus! {

/// An authenticated principal. The host derives it from a signed origin and
/// hands it to the module; the module never constructs one of its own.
pub type Identity = u64;

/// What the cache slot holds before the first `update_cache` call: the
/// zero identity, declared explicitly rather than relied on as an
/// accidental language default.
pub const DEFAULT_IDENTITY: Identity = 0;

/// The invocation context an operation receives. Only a signed origin
/// carries an authenticated caller; everything else is rejected.
#[derive(Clone, Copy, Debug, PartialEq, Eq, Structural)]
pub enum Origin {
    /// The host verified a signature and established this caller.
    Signed(Identity),
    /// No caller could be authenticated.
    Unauthenticated,
}

/// The module's own failures: preconditions on the counter store that an
/// operation found violated.
#[derive(Clone, Copy, Debug, PartialEq, Eq, Structural)]
pub enum ZeroError {
    /// The counter store holds no entry for the identity in question.
    NoValueStored,
    /// The requested addition would push a counter past `u32::MAX`.
    MaxValueReached,
}

/// Every way a dispatched operation can fail, separating authentication
/// failures (raised by the origin check) from the module's own errors.
#[derive(Clone, Copy, Debug, PartialEq, Eq, Structural)]
pub enum DispatchError {
    /// The origin carried no authenticated caller.
    BadOrigin,
    /// A precondition of the module itself failed.
    Module(ZeroError),
}

/// What every operation returns: success carries no payload; results are
/// communicated through the event trail.
pub type DispatchResult = Result<(), DispatchError>;

/// The events an operation emits on success, in the order emitted.
#[derive(Clone, Copy, Debug, PartialEq, Eq, Structural)]
pub enum Event {
    /// `do_something` echoed its input: (caller, input).
    EmitInput(Identity, u32),
    /// A counter was written: (caller, value).
    InsertEntry(Identity, u32),
    /// A counter was read: (caller, stored value of the read target).
    GetEntry(Identity, u32),
    /// A counter was increased: (caller, old value, new value).
    IncreaseEntry(Identity, u32, u32),
    /// The cache slot changed hands: (old occupant, new occupant).
    UpdateCache(Identity, Identity),
}

/// In its host framework the event enum is generated from a declaration
/// macro; this marker stands where that generation step would run, and
/// [`Event`] is the generated code written out by hand.
pub fn expand_decl_event() {
}

/// In its host framework the error enum is generated from a declaration
/// macro; this marker stands where that generation step would run, and
/// [`ZeroError`] with [`DispatchError`] is the generated code written out
/// by hand.
pub fn expand_decl_error() {
}

/// One of the five callable operations, with its arguments.
#[derive(Clone, Copy, Debug, PartialEq, Eq, Structural)]
pub enum Call {
    /// Authenticate, emit the input, change nothing.
    DoSomething(u32),
    /// Set the caller's counter to the given value.
    InsertEntry(u32),
    /// Read the counter stored for the given identity.
    GetEntry(Identity),
    /// Add the given amount to the caller's counter.
    IncreaseEntry(u32),
    /// Record the caller in the cache slot.
    UpdateCache,
}

/// The abstract state of the module: the counter store, the cache slot,
/// and the trail of events emitted so far, oldest first.
#[verifier::ext_equal]
pub struct ModuleView {
    /// Per-identity counters; a key is present only after a successful
    /// insertion for that identity.
    pub counters: Map<Identity, u32>,
    /// The single shared cache slot.
    pub cache: Identity,
    /// Every event emitted since initialization, in emission order.
    pub events: Seq<Event>,
}

/// The state at module initialization: no counters, the default identity
/// in the cache slot, and an empty event trail.
pub open spec fn initial_state() -> ModuleView {
    ModuleView {
        counters: Map::empty(),
        cache: DEFAULT_IDENTITY,
        events: Seq::empty(),
    }
}

/// The origin check: a signed origin yields its caller, anything else is
/// `BadOrigin`.
pub open spec fn authenticate(origin: Origin) -> Result<Identity, DispatchError> {
    match origin {
        Origin::Signed(caller) => Ok(caller),
        Origin::Unauthenticated => Err(DispatchError::BadOrigin),
    }
}

/// Transition of `do_something` for an authenticated caller: storage is
/// untouched; the input is echoed as an event.
pub open spec fn do_something_step(s: ModuleView, caller: Identity, input: u32) -> (
    ModuleView,
    DispatchResult,
) {
    (
        ModuleView { events: s.events.push(Event::EmitInput(caller, input)), ..s },
        Ok(()),
    )
}

/// Transition of `insert_entry` for an authenticated caller: the caller's
/// counter is set unconditionally, overwriting any prior value.
pub open spec fn insert_entry_step(s: ModuleView, caller: Identity, value: u32) -> (
    ModuleView,
    DispatchResult,
) {
    (
        ModuleView {
            counters: s.counters.insert(caller, value),
            events: s.events.push(Event::InsertEntry(caller, value)),
            ..s
        },
        Ok(()),
    )
}

/// Transition of `get_entry` for an authenticated caller: a pure read of
/// the target's counter, reported in an event beside the caller; an
/// absent target fails with `NoValueStored` and changes nothing.
pub open spec fn get_entry_step(s: ModuleView, caller: Identity, target: Identity) -> (
    ModuleView,
    DispatchResult,
) {
    if s.counters.contains_key(target) {
        (
            ModuleView {
                events: s.events.push(Event::GetEntry(caller, s.counters[target])),
                ..s
            },
            Ok(()),
        )
    } else {
        (s, Err(DispatchError::Module(ZeroError::NoValueStored)))
    }
}

/// Transition of `increase_entry` for an authenticated caller: the
/// caller's counter grows by `add_this_val` when an entry exists and the
/// sum stays within `u32`; otherwise the fitting error is returned and
/// nothing changes.
pub open spec fn increase_entry_step(s: ModuleView, caller: Identity, add_this_val: u32) -> (
    ModuleView,
    DispatchResult,
) {
    if !s.counters.contains_key(caller) {
        (s, Err(DispatchError::Module(ZeroError::NoValueStored)))
    } else if s.counters[caller] + add_this_val > u32::MAX {
        (s, Err(DispatchError::Module(ZeroError::MaxValueReached)))
    } else {
        let new_value = (s.counters[caller] + add_this_val) as u32;
        (
            ModuleView {
                counters: s.counters.insert(caller, new_value),
                events: s.events.push(
                    Event::IncreaseEntry(caller, s.counters[caller], new_value),
                ),
                ..s
            },
            Ok(()),
        )
    }
}

/// Transition of `update_cache` for an authenticated caller: the old
/// occupant is snapshotted before the overwrite, so the event reports the
/// transition (old occupant, caller).
pub open spec fn update_cache_step(s: ModuleView, caller: Identity) -> (
    ModuleView,
    DispatchResult,
) {
    (
        ModuleView {
            cache: caller,
            events: s.events.push(Event::UpdateCache(s.cache, caller)),
            ..s
        },
        Ok(()),
    )
}

/// Does this event record a counter insertion for `account`?
pub open spec fn records_insert_for(e: Event, account: Identity) -> bool {
    match e {
        Event::InsertEntry(user, _) => user == account,
        _ => false,
    }
}

/// The bookkeeping invariant tying storage to the audit trail: every key
/// of the counter store was introduced by some recorded `InsertEntry`
/// event. It holds initially and is preserved by every step (see
/// `crate::laws`), so an identity with no recorded insertion holds no
/// counter.
pub open spec fn keys_recorded(s: ModuleView) -> bool {
    forall|account: Identity| #[trigger]
        s.counters.contains_key(account) ==> exists|j: int|
            0 <= j < s.events.len() && #[trigger] records_insert_for(s.events[j], account)
}

/// The full transition of one dispatched call: authentication first —
/// an unauthenticated origin fails with `BadOrigin` before any storage is
/// touched and before any event is emitted — then the operation itself.
pub open spec fn step(s: ModuleView, origin: Origin, call: Call) -> (ModuleView, DispatchResult) {
    match authenticate(origin) {
        Err(e) => (s, Err(e)),
        Ok(caller) => match call {
            Call::DoSomething(input) => do_something_step(s, caller, input),
            Call::InsertEntry(value) => insert_entry_step(s, caller, value),
            Call::GetEntry(target) => get_entry_step(s, caller, target),
            Call::IncreaseEntry(add_this_val) => increase_entry_step(s, caller, add_this_val),
            Call::UpdateCache => update_cache_step(s, caller),
        },
    }
}

} // verus!
