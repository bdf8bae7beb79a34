//! Mutual exclusion by branch: a registry that grants each key to one holder
//! at a time and never lets one key stand in the way of another.

use dashmap::DashMap;
use vstd::prelude::*;

use crate::runner::{BranchKey, BranchSpec};

verus! {

/// What a registry knows: the keys it has ever been asked for, and those
/// that are held right now.
pub ghost struct LockTable {
    pub registered: Set<BranchKey>,
    pub held: Set<BranchKey>,
}

impl LockTable {
    /// Whether a request for `key` is granted: exactly when nobody holds it.
    pub open spec fn grants(self, key: BranchKey) -> bool {
        !self.held.contains(key)
    }

    /// The table after a request for `key`: a granted key is registered and
    /// held, a refused request changes nothing.
    pub open spec fn acquire(self, key: BranchKey) -> LockTable {
        if self.grants(key) {
            LockTable { registered: self.registered.insert(key), held: self.held.insert(key) }
        } else {
            self
        }
    }

    /// The table after `key` was given back: it stays registered and is free.
    pub open spec fn release(self, key: BranchKey) -> LockTable {
        LockTable { registered: self.registered, held: self.held.remove(key) }
    }

    /// Whether only registered keys are held.
    pub open spec fn consistent(self) -> bool {
        self.held.subset_of(self.registered)
    }
}

/// The concurrent hash map `dashmap::DashMap`, of which nothing is known
/// but what the functions below say.
#[verifier::external_type_specification]
#[verifier::external_body]
#[verifier::reject_recursive_types(K)]
#[verifier::reject_recursive_types(V)]
#[verifier::reject_recursive_types(S)]
pub struct ExDashMap<K, V, S>(DashMap<K, V, S>);

/// What a map of locks holds: for each key it has an entry for, whether
/// that key is held. The registry owns its map and reaches it only through
/// the functions below, so the map changes only where they say it does.
pub uninterp spec fn flags(map: DashMap<BranchSpec, bool>) -> Map<BranchKey, bool>;

/// Makes an empty map with `DashMap::new`.
///
/// Trusted: the new map has no entry.
#[verifier::external_body]
fn empty_map() -> (created: DashMap<BranchSpec, bool>)
    ensures
        forall|key: BranchKey| !flags(created).dom().contains(key),
{
    DashMap::new()
}

/// Reads the flag of `key` with `DashMap::get`.
///
/// Trusted: the result is the flag of the entry whose key has the three
/// names of `key`, or `None` if the map has no such entry; keys are told
/// apart by their names alone.
#[verifier::external_body]
fn flag_of(map: &DashMap<BranchSpec, bool>, key: &BranchSpec) -> (flag: Option<bool>)
    ensures
        flag == if flags(*map).dom().contains(key@) {
            Some(flags(*map)[key@])
        } else {
            None::<bool>
        },
{
    map.get(key).map(|entry| *entry.value())
}

/// Makes sure that `key` has an entry with `DashMap::entry` and `or_insert`,
/// and reads its flag.
///
/// Trusted: a key without an entry gets one with the flag `fresh`, an entry
/// that is there is left as it is, no other entry changes, and the result is
/// the flag that the key's entry then has.
#[verifier::external_body]
fn flag_or_insert(map: &mut DashMap<BranchSpec, bool>, key: BranchSpec, fresh: bool) -> (flag: bool)
    ensures
        flags(*final(map)) == if flags(*old(map)).dom().contains(key@) {
            flags(*old(map))
        } else {
            flags(*old(map)).insert(key@, fresh)
        },
        flag == flags(*final(map))[key@],
{
    *map.entry(key).or_insert(fresh)
}

/// Sets the flag of `key` with `DashMap::insert`.
///
/// Trusted: afterwards the key's entry has the flag `flag`, whether or not
/// the key had an entry before, and no other entry has changed.
#[verifier::external_body]
fn set_flag(map: &mut DashMap<BranchSpec, bool>, key: BranchSpec, flag: bool)
    ensures
        flags(*final(map)) == flags(*old(map)).insert(key@, flag),
{
    map.insert(key, flag);
}

/// Counts the entries with `DashMap::len`.
///
/// Trusted: a map has finitely many entries, and the result is their number.
#[verifier::external_body]
fn entry_count(map: &DashMap<BranchSpec, bool>) -> (count: usize)
    ensures
        if flags(*map).dom().finite() {
            count == flags(*map).dom().len()
        } else {
            false
        },
{
    map.len()
}

/// A registry of locks, one for each key it has been asked for. A lock comes
/// into being with the first request for its key and is never removed.
pub struct LockManager {
    locks: DashMap<BranchSpec, bool>,
}

impl View for LockManager {
    type V = LockTable;

    closed spec fn view(&self) -> LockTable {
        LockTable {
            registered: flags(self.locks).dom(),
            held: Set::new(
                |key: BranchKey| flags(self.locks).dom().contains(key) && flags(self.locks)[key],
            ),
        }
    }
}

impl LockManager {
    /// A registry without locks.
    pub fn new() -> (manager: LockManager)
        ensures
            manager@.registered == Set::<BranchKey>::empty(),
            manager@.held == Set::<BranchKey>::empty(),
    {
        let manager = LockManager { locks: empty_map() };
        assert(manager@.registered =~= Set::<BranchKey>::empty());
        assert(manager@.held =~= Set::<BranchKey>::empty());
        manager
    }

    /// Whether the registry has a lock for `key`.
    pub fn is_registered(&self, key: &BranchSpec) -> (registered: bool)
        ensures
            registered == self@.registered.contains(key@),
    {
        flag_of(&self.locks, key).is_some()
    }

    /// Whether `key` is held right now.
    pub fn is_held(&self, key: &BranchSpec) -> (held: bool)
        ensures
            held == self@.held.contains(key@),
    {
        match flag_of(&self.locks, key) {
            Some(flag) => flag,
            None => false,
        }
    }

    /// The number of locks, which is the number of keys ever asked for.
    pub fn len(&self) -> (count: usize)
        ensures
            self@.registered.finite(),
            count == self@.registered.len(),
    {
        entry_count(&self.locks)
    }

    /// Only registered keys are held.
    pub proof fn lemma_consistent(&self)
        ensures
            self@.consistent(),
    {
    }

    /// Asks for `key` without waiting. The request is granted exactly when
    /// nobody holds the key; a lock for a key never asked for before is
    /// created by the request.
    pub fn try_acquire(&mut self, key: &BranchSpec) -> (granted: bool)
        ensures
            granted == old(self)@.grants(key@),
            final(self)@ == old(self)@.acquire(key@),
    {
        if flag_or_insert(&mut self.locks, key.clone(), false) {
            assert(self@.registered =~= old(self)@.registered);
            assert(self@.held =~= old(self)@.held);
            false
        } else {
            set_flag(&mut self.locks, key.clone(), true);
            assert(self@.registered =~= old(self)@.registered.insert(key@));
            assert(self@.held =~= old(self)@.held.insert(key@));
            true
        }
    }

    /// Gives `key` back. The lock stays in the registry.
    pub fn release(&mut self, key: &BranchSpec)
        ensures
            final(self)@ == old(self)@.release(key@),
    {
        match flag_of(&self.locks, key) {
            Some(true) => {
                set_flag(&mut self.locks, key.clone(), false);
                assert(self@.registered =~= old(self)@.registered);
                assert(self@.held =~= old(self)@.held.remove(key@));
            },
            _ => {
                assert(self@.held =~= old(self)@.held.remove(key@));
            },
        }
    }

    /// Runs `body` while holding the lock for `key`, which nobody may hold
    /// when the call is made, and hands back what `body` returns, be it a
    /// success or a failure. The lock is free again afterwards. A call for a
    /// key that is held would never come back, which is why it is not
    /// allowed; `try_with_lock` is the form that may be called in any state.
    /// A `body` that unwinds leaves the key held.
    pub fn with_lock<T, F>(&mut self, key: BranchSpec, body: F) -> (result: T) where
        F: FnOnce() -> T,

        requires
            old(self)@.grants(key@),
            body.requires(()),
        ensures
            body.ensures((), result),
            final(self)@ == old(self)@.acquire(key@).release(key@),
    {
        let granted = self.try_acquire(&key);
        assert(granted);
        let result = body();
        self.release(&key);
        result
    }

    /// Runs `body` while holding the lock for `key` if nobody holds it, and
    /// hands back what `body` returns; does nothing and returns `None` if
    /// the key is held.
    pub fn try_with_lock<T, F>(&mut self, key: BranchSpec, body: F) -> (result: Option<T>) where
        F: FnOnce() -> T,

        requires
            body.requires(()),
        ensures
            match result {
                Some(value) => old(self)@.grants(key@) && body.ensures((), value) && final(self)@
                    == old(self)@.acquire(key@).release(key@),
                None => !old(self)@.grants(key@) && final(self)@ == old(self)@,
            },
    {
        if self.is_held(&key) {
            None
        } else {
            Some(self.with_lock(key, body))
        }
    }
}

/// A key is granted to one holder at a time: once a request for it was
/// granted, every further request for it is refused until it is given back,
/// and after that the next request is granted again.
pub proof fn lemma_one_holder(table: LockTable, key: BranchKey)
    ensures
        !table.acquire(key).grants(key),
        table.acquire(key).acquire(key) == table.acquire(key),
        table.acquire(key).release(key).grants(key),
{
}

/// Keys do not stand in each other's way: whether a request for one key is
/// granted does not depend on requests for, or the return of, any other key.
pub proof fn lemma_keys_independent(table: LockTable, key: BranchKey, other: BranchKey)
    requires
        key != other,
    ensures
        table.acquire(other).grants(key) == table.grants(key),
        table.release(other).grants(key) == table.grants(key),
{
}

/// Only registered keys are ever held, and no request or return takes a key
/// out of the registry.
pub proof fn lemma_never_removed(table: LockTable, key: BranchKey)
    requires
        table.consistent(),
    ensures
        table.acquire(key).consistent(),
        table.release(key).consistent(),
        table.registered.subset_of(table.acquire(key).registered),
        table.registered.subset_of(table.release(key).registered),
{
}

} // verus!
