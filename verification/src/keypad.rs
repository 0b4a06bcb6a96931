//! The keypad: sixteen keys, each held down or not.

use vstd::prelude::*;

use crate::state::NUM_KEYS;

verus! {

/// Some key is held down.
pub open spec fn any_key_down(keys: Seq<bool>) -> bool {
    exists|k: int| 0 <= k < keys.len() && keys[k]
}

/// Key `k` is held down and no key with a lower code is.
pub open spec fn is_lowest_key_down(keys: Seq<bool>, k: int) -> bool {
    &&& 0 <= k < keys.len()
    &&& keys[k]
    &&& forall|j: int| 0 <= j < k ==> !keys[j]
}

/// The lowest code among the keys held down, where any key is.
pub open spec fn lowest_key_down(keys: Seq<bool>) -> int {
    choose|k: int| is_lowest_key_down(keys, k)
}

/// A key that is down with none below it is the lowest key down: there is
/// only one such key.
pub proof fn lowest_key_down_is_unique(keys: Seq<bool>, k: int)
    requires
        is_lowest_key_down(keys, k),
    ensures
        any_key_down(keys),
        lowest_key_down(keys) == k,
{
    let lowest = lowest_key_down(keys);
    assert(is_lowest_key_down(keys, lowest));
}

/// Scans the keypad from key 0 up and returns the first key that is down,
/// or `None` where no key is.
pub(crate) fn first_key_down(keys: &[bool; NUM_KEYS]) -> (found: Option<u8>)
    ensures
        match found {
            Some(k) => is_lowest_key_down(keys@, k as int),
            None => !any_key_down(keys@),
        },
{
    let mut k: usize = 0;
    while k < NUM_KEYS
        invariant
            k <= NUM_KEYS,
            forall|j: int| 0 <= j < k ==> !keys[j],
        decreases NUM_KEYS - k,
    {
        if keys[k] {
            return Some(k as u8);
        }
        k += 1;
    }
    None
}

} // verus!
