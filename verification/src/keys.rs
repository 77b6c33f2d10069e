//! The sixteen keys of the hexadecimal keypad and sets of them.

use vstd::prelude::*;

verus! {

/// Number of keys on the keypad.
pub const KEY_COUNT: usize = 16;

/// One key of the hexadecimal keypad.
#[derive(Copy, Clone, PartialEq, Eq, Structural, Hash, Debug)]
pub enum Key {
    Key0,
    Key1,
    Key2,
    Key3,
    Key4,
    Key5,
    Key6,
    Key7,
    Key8,
    Key9,
    KeyA,
    KeyB,
    KeyC,
    KeyD,
    KeyE,
    KeyF,
}

impl Key {
    /// The 4-bit code of a key.
    pub open spec fn code(self) -> u8 {
        match self {
            Key::Key0 => 0,
            Key::Key1 => 1,
            Key::Key2 => 2,
            Key::Key3 => 3,
            Key::Key4 => 4,
            Key::Key5 => 5,
            Key::Key6 => 6,
            Key::Key7 => 7,
            Key::Key8 => 8,
            Key::Key9 => 9,
            Key::KeyA => 10,
            Key::KeyB => 11,
            Key::KeyC => 12,
            Key::KeyD => 13,
            Key::KeyE => 14,
            Key::KeyF => 15,
        }
    }

    /// The key that carries the code `num`, if there is one.
    pub open spec fn with_code(num: u8) -> Option<Key> {
        if num == 0 {
            Some(Key::Key0)
        } else if num == 1 {
            Some(Key::Key1)
        } else if num == 2 {
            Some(Key::Key2)
        } else if num == 3 {
            Some(Key::Key3)
        } else if num == 4 {
            Some(Key::Key4)
        } else if num == 5 {
            Some(Key::Key5)
        } else if num == 6 {
            Some(Key::Key6)
        } else if num == 7 {
            Some(Key::Key7)
        } else if num == 8 {
            Some(Key::Key8)
        } else if num == 9 {
            Some(Key::Key9)
        } else if num == 10 {
            Some(Key::KeyA)
        } else if num == 11 {
            Some(Key::KeyB)
        } else if num == 12 {
            Some(Key::KeyC)
        } else if num == 13 {
            Some(Key::KeyD)
        } else if num == 14 {
            Some(Key::KeyE)
        } else if num == 15 {
            Some(Key::KeyF)
        } else {
            None
        }
    }

    /// Decodes a key number. Numbers from 16 on name no key.
    pub fn from_num(num: u8) -> (key: Option<Key>)
        ensures
            key == Key::with_code(num),
            key is Some <==> num < 16,
            key matches Some(k) ==> k.code() == num,
    {
        match num {
            0 => Some(Key::Key0),
            1 => Some(Key::Key1),
            2 => Some(Key::Key2),
            3 => Some(Key::Key3),
            4 => Some(Key::Key4),
            5 => Some(Key::Key5),
            6 => Some(Key::Key6),
            7 => Some(Key::Key7),
            8 => Some(Key::Key8),
            9 => Some(Key::Key9),
            10 => Some(Key::KeyA),
            11 => Some(Key::KeyB),
            12 => Some(Key::KeyC),
            13 => Some(Key::KeyD),
            14 => Some(Key::KeyE),
            15 => Some(Key::KeyF),
            _ => None,
        }
    }

    /// The number of a key, between 0 and 15.
    pub fn to_num(&self) -> (num: u8)
        ensures
            num == self.code(),
            num < 16,
            Key::with_code(num) == Some(*self),
    {
        match self {
            Key::Key0 => 0,
            Key::Key1 => 1,
            Key::Key2 => 2,
            Key::Key3 => 3,
            Key::Key4 => 4,
            Key::Key5 => 5,
            Key::Key6 => 6,
            Key::Key7 => 7,
            Key::Key8 => 8,
            Key::Key9 => 9,
            Key::KeyA => 10,
            Key::KeyB => 11,
            Key::KeyC => 12,
            Key::KeyD => 13,
            Key::KeyE => 14,
            Key::KeyF => 15,
        }
    }
}

/// Decoding the code of a key gives that key back.
pub proof fn lemma_key_round_trip(key: Key)
    ensures
        key.code() < 16,
        Key::with_code(key.code()) == Some(key),
{
}

/// Every number below 16 is the code of exactly the key it decodes to, and
/// no other number decodes to a key.
pub proof fn lemma_code_round_trip(num: u8)
    ensures
        num < 16 ==> Key::with_code(num) is Some && Key::with_code(num)->0.code() == num,
        num >= 16 ==> Key::with_code(num) is None,
{
}

/// Two keys with the same code are the same key.
pub proof fn lemma_code_injective(a: Key, b: Key)
    requires
        a.code() == b.code(),
    ensures
        a == b,
{
    lemma_key_round_trip(a);
    lemma_key_round_trip(b);
}

/// A set of keys, one flag for each key of the keypad.
#[derive(Copy, Clone, Debug)]
pub struct KeySet {
    flags: [bool; KEY_COUNT],
}

impl View for KeySet {
    type V = Set<Key>;

    closed spec fn view(&self) -> Set<Key> {
        Set::new(|key: Key| self.flags@[key.code() as int])
    }
}

impl KeySet {
    /// The set without any key.
    pub fn new() -> (set: KeySet)
        ensures
            set@ == Set::<Key>::empty(),
    {
        let set = KeySet { flags: [false; KEY_COUNT] };
        assert(set@ =~= Set::<Key>::empty());
        set
    }

    /// Whether `key` is in the set.
    pub fn contains(&self, key: &Key) -> (found: bool)
        ensures
            found == self@.contains(*key),
    {
        self.flags[key.to_num() as usize]
    }

    /// Puts `key` into the set.
    pub fn insert(&mut self, key: Key)
        ensures
            final(self)@ == old(self)@.insert(key),
    {
        self.flags[key.to_num() as usize] = true;
        proof {
            assert forall|other: Key| self@.contains(other) == old(self)@.insert(key).contains(
                other,
            ) by {
                if other.code() == key.code() {
                    lemma_code_injective(other, key);
                }
            }
            assert(self@ =~= old(self)@.insert(key));
        }
    }

    /// Takes `key` out of the set.
    pub fn remove(&mut self, key: Key)
        ensures
            final(self)@ == old(self)@.remove(key),
    {
        self.flags[key.to_num() as usize] = false;
        proof {
            assert forall|other: Key| self@.contains(other) == old(self)@.remove(key).contains(
                other,
            ) by {
                if other.code() == key.code() {
                    lemma_code_injective(other, key);
                }
            }
            assert(self@ =~= old(self)@.remove(key));
        }
    }

    /// Whether every key of this set is also in `other`.
    pub fn is_subset_of(&self, other: &KeySet) -> (all: bool)
        ensures
            all == self@.subset_of(other@),
    {
        let mut n: u8 = 0;
        while n < 16
            invariant
                n <= 16,
                forall|k: int| 0 <= k < n ==> (self.flags@[k] ==> other.flags@[k]),
            decreases 16 - n,
        {
            if self.flags[n as usize] && !other.flags[n as usize] {
                proof {
                    lemma_code_round_trip(n);
                    let key = Key::with_code(n)->0;
                    assert(self@.contains(key) && !other@.contains(key));
                }
                return false;
            }
            n += 1;
        }
        true
    }

    /// The key with the lowest number that is in this set and not in
    /// `baseline`, if there is one.
    pub fn first_new(&self, baseline: &KeySet) -> (found: Option<Key>)
        ensures
            is_first_new(self@, baseline@, found),
    {
        let mut n: u8 = 0;
        while n < 16
            invariant
                n <= 16,
                forall|k: int| 0 <= k < n ==> (self.flags@[k] ==> baseline.flags@[k]),
            decreases 16 - n,
        {
            if self.flags[n as usize] && !baseline.flags[n as usize] {
                let found = Key::from_num(n);
                assert(is_first_new(self@, baseline@, found));
                return found;
            }
            n += 1;
        }
        None
    }
}

/// What `first_new` answers for a current set and a baseline: the new key with
/// the lowest number, or nothing exactly when the current set adds no key to
/// the baseline.
pub open spec fn is_first_new(current: Set<Key>, baseline: Set<Key>, found: Option<Key>) -> bool {
    match found {
        Some(key) => {
            &&& current.contains(key)
            &&& !baseline.contains(key)
            &&& forall|other: Key|
                current.contains(other) && !baseline.contains(other) ==> key.code()
                    <= other.code()
        },
        None => current.subset_of(baseline),
    }
}

/// A key that was already down when the wait began never ends it: whatever
/// `first_new` finds is outside the baseline, and it finds nothing while the
/// pressed keys stay within the baseline.
pub proof fn lemma_held_key_is_not_new(current: Set<Key>, baseline: Set<Key>, found: Option<Key>)
    requires
        is_first_new(current, baseline, found),
    ensures
        found matches Some(key) ==> !baseline.contains(key),
        current.subset_of(baseline) ==> found is None,
        found is None ==> current.subset_of(baseline),
{
}

} // verus!
