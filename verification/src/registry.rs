//! The credential registry: the mapping from credential key to username that
//! a server run checks every request against.

use std::sync::Arc;
use vstd::hash_map::StringHashMap;
use vstd::prelude::*;

verus! {

/// One identity record of the credential store.
#[derive(Debug, Clone)]
pub struct User {
    pub username: String,
    pub api_key: String,
}

/// What a `User` stands for: a username and the key that proves it.
pub struct UserView {
    pub username: Seq<char>,
    pub api_key: Seq<char>,
}

impl View for User {
    type V = UserView;

    open spec fn view(&self) -> UserView {
        UserView { username: self.username@, api_key: self.api_key@ }
    }
}

/// The records that a list of users stands for, in the same order.
pub open spec fn user_views(users: Seq<User>) -> Seq<UserView> {
    Seq::new(users.len(), |i: int| users[i]@)
}

/// The registry that a sequence of records builds: each record binds its key
/// to its username, and a later record replaces an earlier one with the same
/// key.
pub open spec fn registry_of(records: Seq<UserView>) -> Map<Seq<char>, Seq<char>>
    decreases records.len(),
{
    if records.len() == 0 {
        Map::empty()
    } else {
        registry_of(records.drop_last()).insert(records.last().api_key, records.last().username)
    }
}

/// The usernames of a stored map, as plain text.
pub open spec fn names_of(stored: Map<Seq<char>, String>) -> Map<Seq<char>, Seq<char>> {
    Map::new(|key: Seq<char>| stored.contains_key(key), |key: Seq<char>| stored[key]@)
}

/// The registry of one server run, shared read-only by every request.
#[derive(Clone)]
pub struct AppState {
    pub users: Arc<StringHashMap<String>>,
}

impl View for AppState {
    type V = Map<Seq<char>, Seq<char>>;

    open spec fn view(&self) -> Map<Seq<char>, Seq<char>> {
        names_of(self.users@)
    }
}

impl AppState {
    /// Builds the registry from the records in their given order. A key that
    /// occurs twice ends up bound to the username of its last record.
    pub fn build(records: &Vec<User>) -> (state: AppState)
        ensures
            state@ == registry_of(user_views(records@)),
    {
        let mut stored: StringHashMap<String> = StringHashMap::new();
        let mut i: usize = 0;
        while i < records.len()
            invariant
                i <= records.len(),
                names_of(stored@) == registry_of(user_views(records@).take(i as int)),
            decreases records.len() - i,
        {
            let user = &records[i];
            stored.insert(user.api_key.clone(), user.username.clone());
            assert(user_views(records@).take(i + 1).drop_last() =~= user_views(records@).take(
                i as int,
            ));
            i += 1;
        }
        assert(user_views(records@).take(i as int) =~= user_views(records@));
        AppState { users: Arc::new(stored) }
    }

    /// The username bound to `key`, if the registry holds the key.
    pub fn lookup(&self, key: &str) -> (found: Option<&String>)
        ensures
            match found {
                Some(name) => self@.contains_key(key@) && name@ == self@[key@],
                None => !self@.contains_key(key@),
            },
    {
        self.users.get(key)
    }
}

/// A key that no record carries is absent from the built registry.
pub proof fn lemma_unknown_key_absent(records: Seq<UserView>, key: Seq<char>)
    requires
        forall|i: int| 0 <= i < records.len() ==> (#[trigger] records[i]).api_key != key,
    ensures
        !registry_of(records).contains_key(key),
    decreases records.len(),
{
    if records.len() > 0 {
        lemma_unknown_key_absent(records.drop_last(), key);
    }
}

/// Where several records share a key, the registry binds the key to the
/// username of the last of them: if no record after position `i` carries the
/// key of record `i`, a lookup of that key finds the username of record `i`,
/// whatever earlier records said.
pub proof fn lemma_last_record_wins(records: Seq<UserView>, i: int)
    requires
        0 <= i < records.len(),
        forall|j: int| i < j < records.len() ==> (#[trigger] records[j]).api_key != records[i].api_key,
    ensures
        registry_of(records).contains_key(records[i].api_key),
        registry_of(records)[records[i].api_key] == records[i].username,
    decreases records.len(),
{
    if i < records.len() - 1 {
        lemma_last_record_wins(records.drop_last(), i);
    }
}

} // verus!
