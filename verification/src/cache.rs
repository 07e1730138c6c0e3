//! Keys and batched entries of the write-through display-name cache.
//! One key per user; overwrite is unconditional, last write wins.
use vstd::prelude::*;
use crate::strfmt::spec_dec;

verus! {

/// The cache key of a user's display record.
pub open spec fn spec_cache_key(id: u64) -> Seq<char> {
    "cache-user-"@ + spec_dec(id as nat)
}

/// The cache key of a user's display record: `cache-user-{id}`.
pub fn cache_key(id: u64) -> (r: String)
    ensures
        r@ == spec_cache_key(id),
{
    let mut out = String::from_str("cache-user-");
    crate::strfmt::append_dec(&mut out, id);
    out
}

/// Pairs each user's serialized display record with its cache key,
/// for storing a whole chunk in one round trip: entry `i` keys the
/// record of user `i`, and no record is dropped or reordered.
pub fn cache_entries(users: &Vec<(u64, String)>) -> (r: Vec<(String, String)>)
    ensures
        r@.len() == users@.len(),
        forall|i: int| 0 <= i < r@.len() ==> #[trigger] r@[i].0@ == spec_cache_key(users@[i].0)
            && r@[i].1 == users@[i].1,
{
    let mut out: Vec<(String, String)> = Vec::new();
    let mut i: usize = 0;
    while i < users.len()
        invariant
            0 <= i <= users@.len(),
            out@.len() == i,
            forall|k: int| 0 <= k < i ==> #[trigger] out@[k].0@ == spec_cache_key(users@[k].0)
                && out@[k].1 == users@[k].1,
        decreases users@.len() - i,
    {
        let key = cache_key(users[i].0);
        let value = users[i].1.clone();
        out.push((key, value));
        i = i + 1;
    }
    out
}

} // verus!
