//! The executable module: a [`StateModule`] owning the counter store, the
//! cache slot and the event trail, with each operation proved equal to its
//! specified transition from [`crate::model`].

use std::collections::HashMap;
use vstd::prelude::*;

use crate::model::{
    authenticate, initial_state, step, Call, DispatchError, DispatchResult, Event, Identity,
    ModuleView, Origin, ZeroError, DEFAULT_IDENTITY,
};

verus! {

broadcast use vstd::std_specs::hash::group_hash_axioms;

/// The origin check every operation performs first: a signed origin yields
/// its caller, anything else fails with `BadOrigin`.
pub fn ensure_signed(origin: Origin) -> (r: Result<Identity, DispatchError>)
    ensures
        r == authenticate(origin),
{
    match origin {
        Origin::Signed(caller) => Ok(caller),
        Origin::Unauthenticated => Err(DispatchError::BadOrigin),
    }
}

/// In its host framework the dispatchable module — its struct, its call
/// enum and the routing between them — is generated from a declaration
/// macro; this marker stands where that generation step would run, and
/// [`StateModule`] with [`crate::model::Call`] and
/// [`StateModule::dispatch`] is the generated code written out by hand.
pub fn expand_decl_module() {
}

/// The module: both storage regions it owns, plus the trail of events it
/// has emitted, in emission order. The host is expected to serialize
/// operations, so each method is a single atomic read-validate-write-emit
/// step.
pub struct StateModule {
    counters: HashMap<Identity, u32>,
    cache: Identity,
    events: Vec<Event>,
}

impl View for StateModule {
    type V = ModuleView;

    closed spec fn view(&self) -> ModuleView {
        ModuleView { counters: self.counters@, cache: self.cache, events: self.events@ }
    }
}

impl StateModule {
    /// A freshly initialized module: no counters, the default identity in
    /// the cache slot, and nothing emitted yet.
    pub fn new() -> (m: StateModule)
        ensures
            m@ == initial_state(),
    {
        StateModule { counters: HashMap::new(), cache: DEFAULT_IDENTITY, events: Vec::new() }
    }

    /// Authenticate, emit the input, and deliberately leave both storage
    /// regions untouched: the operation exists to demonstrate the
    /// authorization-and-event pattern.
    pub fn do_something(&mut self, origin: Origin, input: u32) -> (r: DispatchResult)
        ensures
            (final(self)@, r) == step(old(self)@, origin, Call::DoSomething(input)),
    {
        let user = match ensure_signed(origin) {
            Ok(user) => user,
            Err(e) => return Err(e),
        };
        self.events.push(Event::EmitInput(user, input));
        Ok(())
    }

    /// Set the caller's counter to `value`, overwriting any prior entry.
    pub fn insert_entry(&mut self, origin: Origin, value: u32) -> (r: DispatchResult)
        ensures
            (final(self)@, r) == step(old(self)@, origin, Call::InsertEntry(value)),
    {
        let user = match ensure_signed(origin) {
            Ok(user) => user,
            Err(e) => return Err(e),
        };
        self.counters.insert(user, value);
        self.events.push(Event::InsertEntry(user, value));
        Ok(())
    }

    /// Read the counter stored for `account` without mutating anything.
    /// The emitted event pairs the *caller* with the *target's* stored
    /// value; the target itself is not identified in the event.
    pub fn get_entry(&mut self, origin: Origin, account: Identity) -> (r: DispatchResult)
        ensures
            (final(self)@, r) == step(old(self)@, origin, Call::GetEntry(account)),
    {
        let user = match ensure_signed(origin) {
            Ok(user) => user,
            Err(e) => return Err(e),
        };
        let value: u32 = match self.counters.get(&account) {
            Some(value) => *value,
            None => return Err(DispatchError::Module(ZeroError::NoValueStored)),
        };
        self.events.push(Event::GetEntry(user, value));
        Ok(())
    }

    /// Add `add_this_val` to the caller's counter. The caller must already
    /// hold an entry, and the addition is checked: a sum past `u32::MAX`
    /// is rejected rather than wrapped, leaving the entry unchanged.
    pub fn increase_entry(&mut self, origin: Origin, add_this_val: u32) -> (r: DispatchResult)
        ensures
            (final(self)@, r) == step(old(self)@, origin, Call::IncreaseEntry(add_this_val)),
    {
        let user = match ensure_signed(origin) {
            Ok(user) => user,
            Err(e) => return Err(e),
        };
        let original_value: u32 = match self.counters.get(&user) {
            Some(value) => *value,
            None => return Err(DispatchError::Module(ZeroError::NoValueStored)),
        };
        let new_value: u32 = match original_value.checked_add(add_this_val) {
            Some(new_value) => new_value,
            None => return Err(DispatchError::Module(ZeroError::MaxValueReached)),
        };
        self.counters.insert(user, new_value);
        self.events.push(Event::IncreaseEntry(user, original_value, new_value));
        Ok(())
    }

    /// Record the caller in the cache slot. The old occupant is read
    /// before the overwrite, because the event reports the transition
    /// (old occupant, caller), not merely the new state.
    pub fn update_cache(&mut self, origin: Origin) -> (r: DispatchResult)
        ensures
            (final(self)@, r) == step(old(self)@, origin, Call::UpdateCache),
    {
        let user = match ensure_signed(origin) {
            Ok(user) => user,
            Err(e) => return Err(e),
        };
        let old_user: Identity = self.cache;
        self.cache = user;
        self.events.push(Event::UpdateCache(old_user, user));
        Ok(())
    }

    /// Route one call to its operation: the executable counterpart of the
    /// full transition `step`.
    pub fn dispatch(&mut self, origin: Origin, call: Call) -> (r: DispatchResult)
        ensures
            (final(self)@, r) == step(old(self)@, origin, call),
    {
        match call {
            Call::DoSomething(input) => self.do_something(origin, input),
            Call::InsertEntry(value) => self.insert_entry(origin, value),
            Call::GetEntry(account) => self.get_entry(origin, account),
            Call::IncreaseEntry(add_this_val) => self.increase_entry(origin, add_this_val),
            Call::UpdateCache => self.update_cache(origin),
        }
    }

    /// The counter stored for `account`, if any: the host's read-only
    /// storage-query surface.
    pub fn counter_of(&self, account: Identity) -> (r: Option<u32>)
        ensures
            r == (if self@.counters.contains_key(account) {
                Some(self@.counters[account])
            } else {
                None::<u32>
            }),
    {
        match self.counters.get(&account) {
            Some(value) => Some(*value),
            None => None,
        }
    }

    /// The identity currently held by the cache slot.
    pub fn cached_identity(&self) -> (r: Identity)
        ensures
            r == self@.cache,
    {
        self.cache
    }

    /// Every event emitted so far, oldest first: the event sink this
    /// module feeds, exposed for observers.
    pub fn event_log(&self) -> (r: &Vec<Event>)
        ensures
            r@ == self@.events,
    {
        &self.events
    }
}

} // verus!
