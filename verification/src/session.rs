//! The session store: a finished decomposition, kept under an opaque id so
//! that later mix requests avoid recomputation.
//!
//! The store is generic in what it keeps, holds its entries for its whole
//! lifetime (nothing is ever removed), and hands entries back by shared
//! reference, so however many mix requests may read one result without
//! copying it.  Every id it issues is fresh: the random token generator
//! supplies it, and in the vanishing case of a collision the store falls
//! back to the smallest unused id, so no session is ever overwritten.

use vstd::prelude::*;

use std::collections::HashMap;

use vstd::set_lib::lemma_len_subset;

use crate::error::PcaError;

verus! {

broadcast use vstd::std_specs::hash::group_hash_axioms, vstd::set::group_set_axioms;

/// Relies on uuid::Uuid::new_v4 for a fresh random token, taken as its
/// 128-bit value; nothing is promised of the result, callers state what
/// holds whatever token comes back.  The draw aborts only if the operating
/// system's randomness source fails — an environmental failure, like
/// running out of memory, not one any input can cause.
#[verifier::external_body]
fn fresh_session_id() -> u128 {
    uuid::Uuid::new_v4().as_u128()
}

/// The ids below `i` form a set of exactly `i` elements.
proof fn lemma_ids_below_len(i: u128)
    ensures
        Set::new(|x: u128| x < i).finite(),
        Set::new(|x: u128| x < i).len() == i,
    decreases i,
{
    let s = Set::new(|x: u128| x < i);
    if i == 0 {
        assert(s =~= Set::<u128>::empty());
    } else {
        let prev = (i - 1) as u128;
        lemma_ids_below_len(prev);
        let s0 = Set::new(|x: u128| x < prev);
        assert(!s0.contains(prev));
        assert(s =~= s0.insert(prev));
    }
}

/// Holds one value per session id.  Its view is the map from ids to stored
/// values.
pub struct SessionStore<T> {
    entries: HashMap<u128, T>,
}

impl<T> View for SessionStore<T> {
    type V = Map<u128, T>;

    closed spec fn view(&self) -> Map<u128, T> {
        self.entries@
    }
}

impl<T> SessionStore<T> {
    /// A store with no sessions.
    pub fn new() -> (r: Self)
        ensures
            r@ == Map::<u128, T>::empty(),
    {
        SessionStore { entries: HashMap::new() }
    }

    /// The smallest id the store has not issued.  One always exists: the
    /// map holds at most `usize::MAX` entries while the ids run to
    /// `u128::MAX`, so by counting, some id at most the entry count is
    /// free.
    fn first_free_id(&self) -> (id: u128)
        ensures
            !self@.contains_key(id),
    {
        let entry_count = self.entries.len();
        let mut id: u128 = 0;
        while self.entries.contains_key(&id)
            invariant
                self@.len() == entry_count,
                forall|j: u128| j < id ==> self@.dom().contains(j),
                id <= self@.len(),
            decreases self@.len() - id,
        {
            proof {
                // Everything up to and including `id` is taken, so the
                // taken ids number at least `id + 1`.
                lemma_ids_below_len((id + 1) as u128);
                lemma_len_subset(Set::new(|x: u128| x < (id + 1) as u128), self@.dom());
            }
            id = id + 1;
        }
        id
    }

    /// File a finished result under a fresh id and hand the id back.  The
    /// id was not in use before the call, so no earlier session is
    /// touched: the store afterwards maps the new id to the result and is
    /// otherwise unchanged.  The id's value is random; no caller may rely
    /// on it.
    pub fn store(&mut self, result: T) -> (id: u128)
        ensures
            !old(self)@.contains_key(id),
            final(self)@ == old(self)@.insert(id, result),
            final(self)@.contains_key(id),
            final(self)@[id] == result,
    {
        let drawn = fresh_session_id();
        let id = if self.entries.contains_key(&drawn) {
            self.first_free_id()
        } else {
            drawn
        };
        self.entries.insert(id, result);
        id
    }

    /// Look a session up by id: the stored result for a known id, and
    /// `SessionNotFound` for an unknown one, in which case nothing else is
    /// produced.
    pub fn get(&self, id: u128) -> (r: Result<&T, PcaError>)
        ensures
            self@.contains_key(id) ==> r is Ok && *r->Ok_0 == self@[id],
            !self@.contains_key(id) ==> r is Err && r->Err_0 == PcaError::SessionNotFound,
    {
        match self.entries.get(&id) {
            Some(result) => Ok(result),
            None => Err(PcaError::SessionNotFound),
        }
    }
}

} // verus!
