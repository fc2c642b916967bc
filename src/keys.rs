use vstd::prelude::*;

verus! {

/// The keys that the scene binds to an action.
#[derive(Clone, Copy, Debug, PartialEq, Eq, Structural)]
pub enum Key {
    W,
    S,
    Up,
    Down,
    X,
    Space,
}

/// The pair of keys that drives one entity along the vertical axis.
#[derive(Clone, Copy, Debug, PartialEq, Eq, Structural)]
pub struct KeyboardMoveable {
    pub up: Key,
    pub down: Key,
}

/// Whether `k` is among the keys currently held.
pub fn is_held(held: &Vec<Key>, k: Key) -> (r: bool)
    ensures
        r == held@.contains(k),
{
    let mut i: usize = 0;
    while i < held.len()
        invariant
            i <= held@.len(),
            forall|j: int| 0 <= j < i ==> held@[j] != k,
        decreases held@.len() - i,
    {
        if held[i] == k {
            assert(held@[i as int] == k);
            return true;
        }
        i = i + 1;
    }
    false
}

} // verus!
