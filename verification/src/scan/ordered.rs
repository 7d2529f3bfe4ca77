//! Maps that are kept in the order of their keys.

use std::collections::BTreeMap;
use vstd::prelude::*;

verus! {

broadcast use vstd::laws_cmp::group_laws_cmp;

/// Puts `text` into `map` under `key`, in place of what was there.
pub(crate) fn put(map: &mut BTreeMap<i32, String>, key: i32, text: String)
    ensures
        final(map)@ == old(map)@.insert(key, text),
{
    let _ = map.insert(key, text);
}

} // verus!
