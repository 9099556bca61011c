//! Several entries of a map at once.

use vstd::prelude::*;
use crate::string_map::StringMap;

verus! {

/// The values of all the keys, in their order. Fails where one of them is not in the map.
pub fn expect_keys<T: Copy>(map: &StringMap<T>, keys: &Vec<&str>) -> (r: Result<
    Vec<T>,
    &'static str,
>)
    ensures
        match r {
            Ok(values) => {
                &&& values@.len() == keys@.len()
                &&& forall|i: int|
                    0 <= i < keys@.len() ==> map@.contains_key(#[trigger] keys@[i]@) && values@[i]
                        == map@[keys@[i]@]
            },
            Err(e) => e@ == "missing key"@ && exists|i: int|
                0 <= i < keys@.len() && !map@.contains_key(#[trigger] keys@[i]@),
        },
{
    let mut values: Vec<T> = Vec::new();
    let mut i: usize = 0;
    while i < keys.len()
        invariant
            i <= keys@.len(),
            values@.len() == i,
            forall|j: int|
                0 <= j < i ==> map@.contains_key(#[trigger] keys@[j]@) && values@[j]
                    == map@[keys@[j]@],
        decreases keys@.len() - i,
    {
        match map.get(keys[i]) {
            Some(value) => values.push(*value),
            None => {
                assert(!map@.contains_key(keys@[i as int]@));
                return Err("missing key");
            },
        }
        i = i + 1;
    }
    Ok(values)
}

} // verus!
