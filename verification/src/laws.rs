//! Module-level laws: properties of whole call sequences, stated over the
//! transition specification in [`crate::model`] and proved once for all
//! states, callers and values. Since every executable operation in
//! [`crate::state`] is proved equal to its specified transition, each law
//! carries over to the running module.

use vstd::prelude::*;

use crate::model::{
    initial_state, keys_recorded, records_insert_for, step, Call, DispatchError, Event, Identity,
    ModuleView, Origin, ZeroError, DEFAULT_IDENTITY,
};

verus! {

/// An unauthenticated origin is rejected with `BadOrigin` before any
/// storage is touched: whatever the call, the state — counters, cache
/// slot and event trail alike — is exactly what it was.
pub proof fn lemma_unauthenticated_rejected(s: ModuleView, call: Call)
    ensures
        step(s, Origin::Unauthenticated, call) == (
            s,
            Err::<(), DispatchError>(DispatchError::BadOrigin),
        ),
{
}

/// The empty module records no counter that its event trail does not
/// explain: trivially, since it holds no counter at all.
pub proof fn lemma_initial_keys_recorded()
    ensures
        keys_recorded(initial_state()),
{
}

/// Every step preserves the bookkeeping invariant: a counter key exists
/// only for identities whose insertion the event trail records. Together
/// with `lemma_initial_keys_recorded`, the invariant holds in every
/// reachable state.
pub proof fn lemma_step_preserves_keys_recorded(s: ModuleView, origin: Origin, call: Call)
    requires
        keys_recorded(s),
    ensures
        keys_recorded(step(s, origin, call).0),
{
    let s2 = step(s, origin, call).0;
    match origin {
        Origin::Unauthenticated => {
            assert(s2 == s);
        },
        Origin::Signed(caller) => {
            assert forall|account: Identity| #[trigger]
                s2.counters.contains_key(account) implies exists|j: int|
                0 <= j < s2.events.len() && #[trigger] records_insert_for(
                    s2.events[j],
                    account,
                ) by {
                let fresh_insert = match call {
                    Call::InsertEntry(_) => account == caller,
                    _ => false,
                };
                if fresh_insert {
                    let j = s.events.len() as int;
                    assert(records_insert_for(s2.events[j], account));
                } else {
                    assert(s.counters.contains_key(account));
                    let j = choose|j: int|
                        0 <= j < s.events.len() && records_insert_for(s.events[j], account);
                    assert(s2.events[j] == s.events[j]);
                    assert(records_insert_for(s2.events[j], account));
                }
            }
        },
    }
}

/// An identity whose insertion the event trail never recorded — and so,
/// by the invariant, one never successfully passed to `insert_entry` —
/// has no counter: reading it, or increasing it as the caller, fails with
/// `NoValueStored` and changes nothing.
pub proof fn lemma_never_inserted_rejected(
    s: ModuleView,
    caller: Identity,
    account: Identity,
    add_this_val: u32,
)
    requires
        keys_recorded(s),
        forall|j: int| 0 <= j < s.events.len() ==> !records_insert_for(#[trigger] s.events[j], account),
    ensures
        step(s, Origin::Signed(caller), Call::GetEntry(account)) == (
            s,
            Err::<(), DispatchError>(DispatchError::Module(ZeroError::NoValueStored)),
        ),
        step(s, Origin::Signed(account), Call::IncreaseEntry(add_this_val)) == (
            s,
            Err::<(), DispatchError>(DispatchError::Module(ZeroError::NoValueStored)),
        ),
{
    if s.counters.contains_key(account) {
        let j = choose|j: int|
            0 <= j < s.events.len() && records_insert_for(s.events[j], account);
        assert(!records_insert_for(s.events[j], account));
    }
}

/// Inserting `v1` and then increasing by `v2` accumulates: when the sum
/// fits in `u32`, both calls succeed, the caller's counter ends at
/// `v1 + v2`, and the increase reports both the old and the new value.
pub proof fn lemma_insert_then_increase(s: ModuleView, caller: Identity, v1: u32, v2: u32)
    requires
        v1 + v2 <= u32::MAX,
    ensures
        ({
            let (s1, r1) = step(s, Origin::Signed(caller), Call::InsertEntry(v1));
            let (s2, r2) = step(s1, Origin::Signed(caller), Call::IncreaseEntry(v2));
            &&& r1 == Ok::<(), DispatchError>(())
            &&& r2 == Ok::<(), DispatchError>(())
            &&& s2.counters.contains_key(caller)
            &&& s2.counters[caller] == v1 + v2
            &&& s2.events == s1.events.push(
                Event::IncreaseEntry(caller, v1, (v1 + v2) as u32),
            )
        }),
{
}

/// A counter standing at `u32::MAX` cannot grow: any increase by a
/// positive amount fails with `MaxValueReached` and leaves the whole
/// state — the maximal counter included — exactly as it was.
pub proof fn lemma_increase_past_max_rejected(s: ModuleView, caller: Identity, add_this_val: u32)
    requires
        add_this_val > 0,
    ensures
        ({
            let (s1, r1) = step(s, Origin::Signed(caller), Call::InsertEntry(u32::MAX));
            let (s2, r2) = step(s1, Origin::Signed(caller), Call::IncreaseEntry(add_this_val));
            &&& r1 == Ok::<(), DispatchError>(())
            &&& r2 == Err::<(), DispatchError>(DispatchError::Module(ZeroError::MaxValueReached))
            &&& s2 == s1
            &&& s2.counters.contains_key(caller)
            &&& s2.counters[caller] == u32::MAX
        }),
{
}

/// Insertion overwrites: two insertions for one caller leave only the
/// latest value stored, while the event trail keeps both insertions.
pub proof fn lemma_insert_overwrites(s: ModuleView, caller: Identity, v1: u32, v2: u32)
    ensures
        ({
            let (s1, r1) = step(s, Origin::Signed(caller), Call::InsertEntry(v1));
            let (s2, r2) = step(s1, Origin::Signed(caller), Call::InsertEntry(v2));
            &&& r1 == Ok::<(), DispatchError>(())
            &&& r2 == Ok::<(), DispatchError>(())
            &&& s2.counters == s.counters.insert(caller, v2)
            &&& s2.events == s.events.push(Event::InsertEntry(caller, v1)).push(
                Event::InsertEntry(caller, v2),
            )
        }),
{
    let s1 = step(s, Origin::Signed(caller), Call::InsertEntry(v1)).0;
    let s2 = step(s1, Origin::Signed(caller), Call::InsertEntry(v2)).0;
    assert(s2.counters =~= s.counters.insert(caller, v2));
}

/// The cache slot hands over in order: from the default occupant, caching
/// `a` and then `b` emits the two transitions `(default, a)` and
/// `(a, b)`, and leaves `b` in the slot. The counters never move.
pub proof fn lemma_cache_handover(s: ModuleView, a: Identity, b: Identity)
    requires
        s.cache == DEFAULT_IDENTITY,
    ensures
        ({
            let (s1, r1) = step(s, Origin::Signed(a), Call::UpdateCache);
            let (s2, r2) = step(s1, Origin::Signed(b), Call::UpdateCache);
            &&& r1 == Ok::<(), DispatchError>(())
            &&& r2 == Ok::<(), DispatchError>(())
            &&& s2.cache == b
            &&& s2.events == s.events.push(Event::UpdateCache(DEFAULT_IDENTITY, a)).push(
                Event::UpdateCache(a, b),
            )
            &&& s2.counters == s.counters
        }),
{
}

} // verus!
