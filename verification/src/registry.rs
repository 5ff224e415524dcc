//! The identity registry: an in-memory mapping from each issued identifier
//! to the username that claimed it. Records are only ever added; there is no
//! update or delete, and the map lives for the life of the process.

use crate::identifier::fresh_identifier;
use std::collections::HashMap;
use vstd::prelude::*;

verus! {

broadcast use vstd::std_specs::hash::group_hash_axioms;

/// Usernames keyed by issued identifier.
pub struct UserState {
    users: HashMap<u128, String>,
}

impl View for UserState {
    type V = Map<u128, Seq<char>>;

    /// The registry's mathematical content: identifier -> username.
    closed spec fn view(&self) -> Map<u128, Seq<char>> {
        self.users@.map_values(|u: String| u@)
    }
}

impl UserState {
    /// An empty registry, as each process starts with.
    pub fn new() -> (r: UserState)
        ensures
            r@ == Map::<u128, Seq<char>>::empty(),
    {
        let users: HashMap<u128, String> = HashMap::new();
        let r = UserState { users };
        proof {
            assert(r@ =~= Map::<u128, Seq<char>>::empty());
        }
        r
    }

    /// Records `username` under a freshly generated identifier and returns
    /// that identifier. Succeeds for every username, the empty string
    /// included; no uniqueness check is made, so an (improbable) repeated
    /// identifier overwrites the older record.
    pub fn issue(&mut self, username: String) -> (id: u128)
        ensures
            final(self)@ == old(self)@.insert(id, username@),
    {
        let id = fresh_identifier();
        self.users.insert(id, username);
        proof {
            assert(self@ =~= old(self)@.insert(id, username@));
        }
        id
    }

    /// The username stored for `id`, if `id` was ever issued.
    pub fn lookup(&self, id: u128) -> (r: Option<&String>)
        ensures
            match r {
                Some(u) => self@.contains_key(id) && u@ == self@[id],
                None => !self@.contains_key(id),
            },
    {
        self.users.get(&id)
    }

    /// Whether `id` was ever issued.
    pub fn contains(&self, id: u128) -> (b: bool)
        ensures
            b == self@.contains_key(id),
    {
        self.users.contains_key(&id)
    }
}

} // verus!
