//! The keypad as the machine and the source of key events share it: a set of
//! keys behind a lock, and a condition that every change of the set signals.
//!
//! No function here can panic while it holds the lock, so the lock is never
//! left poisoned. The calls below take a poisoned lock all the same rather
//! than panic: the set under it is a plain value that no interrupted update
//! can leave half written.

use std::sync::{Arc, Condvar, Mutex, MutexGuard};
use vstd::prelude::*;

use crate::keys::{is_first_new, Key, KeySet};

verus! {

/// `std::sync::Mutex`. Nothing is known of what it guards until it is locked.
#[verifier::external_type_specification]
#[verifier::external_body]
#[verifier::reject_recursive_types(T)]
pub struct ExMutex<T: ?Sized>(Mutex<T>);

/// `std::sync::MutexGuard`, the proof that a lock is held.
#[verifier::external_type_specification]
#[verifier::external_body]
#[verifier::reject_recursive_types(T)]
pub struct ExMutexGuard<'a, T: ?Sized + 'a>(MutexGuard<'a, T>);

/// `std::sync::Condvar`.
#[verifier::external_type_specification]
#[verifier::external_body]
pub struct ExCondvar(Condvar);

/// `Mutex::new`: a lock around `set`.
#[verifier::external_body]
fn new_mutex(set: KeySet) -> Mutex<KeySet> {
    Mutex::new(set)
}

/// `Condvar::new`.
#[verifier::external_body]
fn new_condvar() -> Condvar {
    Condvar::new()
}

/// `Mutex::lock`: blocks until the lock is free and takes it. Where the lock
/// is poisoned, `PoisonError::into_inner` hands the guard out all the same.
/// Nothing is claimed of the guard.
#[verifier::external_body]
fn lock<'a>(mutex: &'a Mutex<KeySet>) -> MutexGuard<'a, KeySet> {
    match mutex.lock() {
        Ok(guard) => guard,
        Err(poisoned) => poisoned.into_inner(),
    }
}

/// `MutexGuard::deref`: a copy of the set under a held lock. Another thread
/// may have changed the set since the lock was last held, so nothing is
/// claimed of the value.
#[verifier::external_body]
fn peek(guard: &MutexGuard<'_, KeySet>) -> KeySet {
    **guard
}

/// `MutexGuard::deref_mut`: writes `set` under a held lock. Nothing is
/// claimed of the guard afterwards.
#[verifier::external_body]
fn store(guard: &mut MutexGuard<'_, KeySet>, set: KeySet) {
    **guard = set;
}

/// `Condvar::notify_all`: wakes every thread that waits on the condition.
#[verifier::external_body]
fn notify_all(condition: &Condvar) {
    condition.notify_all();
}

/// `Condvar::wait_while`: gives the lock up and sleeps, woken by each
/// notification, for as long as the set under the lock stays within
/// `baseline`; then hands back a copy of the set that it saw last. It does not
/// return while no key from outside the baseline goes down. Nothing is
/// claimed of the set: on a poisoned lock the wait ends at once, whatever the
/// set holds, and `PoisonError::into_inner` hands the guard out.
#[verifier::external_body]
fn wait_beyond(condition: &Condvar, guard: MutexGuard<'_, KeySet>, baseline: &KeySet) -> KeySet {
    match condition.wait_while(guard, |current| current.is_subset_of(baseline)) {
        Ok(guard) => *guard,
        Err(poisoned) => *poisoned.into_inner(),
    }
}

/// The set of keys that are down, shared between the machine, which reads
/// it, and the source of key events, which writes it. A clone is another
/// handle to the same set.
#[derive(Clone)]
pub struct Keyboard {
    keys: Arc<(Mutex<KeySet>, Condvar)>,
}

impl Keyboard {
    /// A keyboard with no key down.
    pub fn new() -> Keyboard {
        Keyboard { keys: Arc::new((new_mutex(KeySet::new()), new_condvar())) }
    }

    /// Whether `key` is down at the moment of the call. Another handle may
    /// change the set at any time, so the answer says nothing of the moment
    /// after.
    pub fn is_pressed(&self, key: &Key) -> bool {
        let guard = lock(&self.keys.0);
        let set = peek(&guard);
        set.contains(key)
    }

    /// Marks `key` as down and wakes whoever waits for a key.
    pub fn set_pressed(&self, key: Key) {
        let mut guard = lock(&self.keys.0);
        let mut set = peek(&guard);
        set.insert(key);
        store(&mut guard, set);
        notify_all(&self.keys.1);
    }

    /// Marks `key` as up and wakes whoever waits for a key.
    pub fn set_unpressed(&self, key: Key) {
        let mut guard = lock(&self.keys.0);
        let mut set = peek(&guard);
        set.remove(key);
        store(&mut guard, set);
        notify_all(&self.keys.1);
    }

    /// Blocks until a key goes down that was up when the call began, and
    /// returns the one with the lowest number among such keys. Keys that were
    /// already down do not end the wait, nor does a key that goes up. The
    /// call does not return while no such key goes down. What it returns for
    /// the set that it wakes up to is stated by `newly_pressed`.
    pub fn wait(&mut self) -> Key {
        let guard = lock(&self.keys.0);
        let baseline = peek(&guard);
        let current = wait_beyond(&self.keys.1, guard, &baseline);
        newly_pressed(&baseline, &current)
    }
}

/// The key that ends a wait which began with the keys of `baseline` down and
/// now sees those of `current`: the key with the lowest number that is down
/// now and was up then. Where there is none the wait was cut short, and the
/// answer is key 0.
pub fn newly_pressed(baseline: &KeySet, current: &KeySet) -> (key: Key)
    ensures
        !current@.subset_of(baseline@) ==> is_first_new(current@, baseline@, Some(key)),
        current@.subset_of(baseline@) ==> key == Key::Key0,
{
    match current.first_new(baseline) {
        Some(key) => key,
        None => Key::Key0,
    }
}

} // verus!
