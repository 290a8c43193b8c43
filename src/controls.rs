use fnv::{FnvHashSet, FnvHasher};
use std::hash::BuildHasherDefault;
use vstd::prelude::*;

verus! {

#[verifier::external_type_specification]
#[verifier::external_body]
pub struct ExFnvHasher(FnvHasher);

#[verifier::external_type_specification]
#[verifier::external_body]
#[verifier::reject_recursive_types(H)]
pub struct ExBuildHasherDefault<H>(BuildHasherDefault<H>);

/// The keys that a set of key codes holds.
pub uninterp spec fn key_set(s: FnvHashSet<u32>) -> Set<u32>;

/// Relies on `HashSet::with_capacity_and_hasher` (with fnv's hasher): a new
/// set is empty.
#[verifier::external_body]
fn empty_key_set(capacity: usize) -> (s: FnvHashSet<u32>)
    ensures
        key_set(s) == Set::<u32>::empty(),
{
    FnvHashSet::with_capacity_and_hasher(capacity, Default::default())
}

/// Relies on `HashSet::insert`: the key is in the set afterwards, and the
/// result says whether it was absent before.
#[verifier::external_body]
fn insert_key(s: &mut FnvHashSet<u32>, key: u32) -> (r: bool)
    ensures
        key_set(*final(s)) == key_set(*old(s)).insert(key),
        r == !key_set(*old(s)).contains(key),
{
    s.insert(key)
}

/// Relies on `HashSet::remove`: the key is not in the set afterwards, and
/// nothing else changes.
#[verifier::external_body]
fn remove_key(s: &mut FnvHashSet<u32>, key: u32)
    ensures
        key_set(*final(s)) == key_set(*old(s)).remove(key),
{
    s.remove(&key);
}

/// Key codes of the keys that steer (the codes of the lower-case letters).
pub const KEY_A: u32 = 0x61;

pub const KEY_D: u32 = 0x64;

pub const KEY_S: u32 = 0x73;

pub const KEY_W: u32 = 0x77;

/// What a key press asks of the camera and the player.
#[derive(Clone, Copy, Debug, PartialEq, Eq, Structural)]
pub enum Command {
    /// One cell forwards (`true`) or backwards along the facing direction.
    Move { forwards: bool },
    /// One sixth of a turn, anticlockwise (`true`) or clockwise.
    Turn { anticlockwise: bool },
}

/// The command a key stands for: W and S move, A and D turn.
pub open spec fn command_for(key: u32) -> Option<Command> {
    if key == KEY_W {
        Some(Command::Move { forwards: true })
    } else if key == KEY_S {
        Some(Command::Move { forwards: false })
    } else if key == KEY_A {
        Some(Command::Turn { anticlockwise: true })
    } else if key == KEY_D {
        Some(Command::Turn { anticlockwise: false })
    } else {
        None
    }
}

/// Which keys are held down. A key acts once when it goes down, not again
/// while it is held.
pub struct Controls {
    pressed_keys: FnvHashSet<u32>,
}

impl Controls {
    /// The keys held down.
    pub closed spec fn pressed(&self) -> Set<u32> {
        key_set(self.pressed_keys)
    }

    pub fn new() -> (c: Self)
        ensures
            c.pressed() == Set::<u32>::empty(),
    {
        Controls { pressed_keys: empty_key_set(8) }
    }

    /// Records that `key` went down, and returns its command if it was not
    /// already held.
    pub fn press(&mut self, key: u32) -> (r: Option<Command>)
        ensures
            final(self).pressed() == old(self).pressed().insert(key),
            r == if old(self).pressed().contains(key) {
                None
            } else {
                command_for(key)
            },
    {
        if insert_key(&mut self.pressed_keys, key) {
            if key == KEY_W {
                Some(Command::Move { forwards: true })
            } else if key == KEY_S {
                Some(Command::Move { forwards: false })
            } else if key == KEY_A {
                Some(Command::Turn { anticlockwise: true })
            } else if key == KEY_D {
                Some(Command::Turn { anticlockwise: false })
            } else {
                None
            }
        } else {
            None
        }
    }

    /// Records that `key` went up.
    pub fn release(&mut self, key: u32)
        ensures
            final(self).pressed() == old(self).pressed().remove(key),
    {
        remove_key(&mut self.pressed_keys, key);
    }
}

} // verus!
