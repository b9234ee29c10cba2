//! The credential store: stored (identifier, secret hash) records and the
//! errors of the loader that brings them in.
//!
//! A store is loaded fresh from an external source for every verification
//! call and discarded afterwards. Uniqueness of identifiers is assumed but
//! not enforced: the first matching record wins.

use vstd::prelude::*;

verus! {

/// One stored credential record: a user identifier and the adaptive hash of
/// that user's secret.
#[derive(Debug, Clone)]
pub struct User {
    pub id: String,
    pub password_hash: String,
}

/// Errors produced while loading the credential store from its external
/// source.
#[derive(Debug, Clone, Copy, PartialEq, Eq, Structural)]
pub enum LoadError {
    /// The environment variable naming the source path is unset.
    LocationMissing,
    /// The file at the named path could not be read.
    SourceUnreadable,
    /// The file contents do not deserialize into a list of records.
    MalformedData,
}

/// Whether some record of the store carries the given identifier.
pub open spec fn store_has_id(store: Seq<User>, id: Seq<char>) -> bool {
    exists|i: int| 0 <= i < store.len() && store[i].id@ == id
}

/// Whether `i` is the position of the first record carrying `id`.
pub open spec fn is_first_match(store: Seq<User>, id: Seq<char>, i: int) -> bool {
    &&& 0 <= i < store.len()
    &&& store[i].id@ == id
    &&& forall|j: int| 0 <= j < i ==> store[j].id@ != id
}

/// The position of the first record carrying `id`; meaningful only when
/// `store_has_id(store, id)` holds.
pub open spec fn first_match_index(store: Seq<User>, id: Seq<char>) -> int {
    choose|i: int| is_first_match(store, id, i)
}

/// The stored hash of the first record carrying `id`.
pub open spec fn stored_hash(store: Seq<User>, id: Seq<char>) -> Seq<char> {
    store[first_match_index(store, id)].password_hash@
}

/// At most one position is the first match for an identifier.
pub proof fn lemma_first_match_unique(store: Seq<User>, id: Seq<char>, i: int, j: int)
    requires
        is_first_match(store, id, i),
        is_first_match(store, id, j),
    ensures
        i == j,
{
    if i < j {
        assert(store[i].id@ != id);
    }
    if j < i {
        assert(store[j].id@ != id);
    }
}

/// Finds the first record whose identifier equals `id` exactly
/// (case-sensitive), scanning the store in order.
pub fn find_user(store: &Vec<User>, id: &str) -> (r: Option<usize>)
    ensures
        r is Some <==> store_has_id(store@, id@),
        r matches Some(i) ==> is_first_match(store@, id@, i as int),
{
    let id_owned = id.to_owned();
    let mut k: usize = 0;
    while k < store.len()
        invariant
            k <= store@.len(),
            id_owned@ == id@,
            forall|j: int| 0 <= j < k ==> store@[j].id@ != id@,
        decreases store@.len() - k,
    {
        if store[k].id == id_owned {
            return Some(k);
        }
        k = k + 1;
    }
    None
}

} // verus!
