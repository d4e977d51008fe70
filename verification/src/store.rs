//! The rules for editing and listing the records of the credential store.
//! Reading and writing the store is the caller's business: these functions
//! work on the records that the caller has loaded.

use crate::registry::{user_views, User, UserView};
use vstd::prelude::*;
use vstd::string::StringExecFns;

verus! {

/// Whether some record carries `username`.
pub open spec fn has_username(records: Seq<UserView>, username: Seq<char>) -> bool {
    exists|i: int| 0 <= i < records.len() && (#[trigger] records[i]).username == username
}

/// The records without those that carry `username`, in their order.
pub open spec fn without_username(records: Seq<UserView>, username: Seq<char>) -> Seq<UserView>
    decreases records.len(),
{
    if records.len() == 0 {
        records
    } else if records.last().username == username {
        without_username(records.drop_last(), username)
    } else {
        without_username(records.drop_last(), username).push(records.last())
    }
}

/// The line that lists one record.
pub open spec fn listing_line(record: UserView) -> Seq<char> {
    "Username: "@ + record.username + ", API Key: "@ + record.api_key
}

/// What a listing of the records prints, line by line: a heading and one line
/// for each record, or a single line that says there is none.
pub open spec fn listing(records: Seq<UserView>) -> Seq<Seq<char>> {
    if records.len() == 0 {
        seq!["No users found."@]
    } else {
        seq!["Current users:"@] + Seq::new(records.len(), |i: int| listing_line(records[i]))
    }
}

/// Whether some user of the list has the name.
fn contains_username(users: &Vec<User>, username: &String) -> (found: bool)
    ensures
        found == has_username(user_views(users@), username@),
{
    let mut i: usize = 0;
    while i < users.len()
        invariant
            i <= users.len(),
            forall|j: int| 0 <= j < i ==> (#[trigger] user_views(users@)[j]).username != username@,
        decreases users.len() - i,
    {
        if users[i].username == *username {
            assert(user_views(users@)[i as int].username == username@);
            return true;
        }
        i += 1;
    }
    false
}

/// Adds a record for `username` with `api_key` at the end of the list, unless
/// a record with that username is there already: then the list stays as it is.
/// Returns whether the record was added.
pub fn add_user(users: &mut Vec<User>, username: &str, api_key: &str) -> (added: bool)
    ensures
        added == !has_username(user_views(old(users)@), username@),
        added ==> user_views(final(users)@) == user_views(old(users)@).push(
            UserView { username: username@, api_key: api_key@ },
        ),
        !added ==> final(users)@ == old(users)@,
{
    let name = String::from_str(username);
    if contains_username(users, &name) {
        return false;
    }
    users.push(User { username: name, api_key: String::from_str(api_key) });
    true
}

/// Removes every record that carries `username` and keeps the others in
/// their order. Returns whether a record was removed.
pub fn remove_user(users: &mut Vec<User>, username: &str) -> (removed: bool)
    ensures
        user_views(final(users)@) == without_username(user_views(old(users)@), username@),
        removed == has_username(user_views(old(users)@), username@),
        removed == (final(users)@.len() != old(users)@.len()),
{
    let name = String::from_str(username);
    let mut kept: Vec<User> = Vec::new();
    let mut i: usize = 0;
    let ghost records = user_views(users@);
    while i < users.len()
        invariant
            i <= users.len(),
            *users == *old(users),
            records == user_views(users@),
            name@ == username@,
            user_views(kept@) == without_username(records.take(i as int), username@),
            kept@.len() <= i,
            kept@.len() == i <==> !has_username(records.take(i as int), username@),
        decreases users.len() - i,
    {
        let user = &users[i];
        assert(records.take(i + 1).drop_last() =~= records.take(i as int));
        if user.username != name {
            kept.push(User { username: user.username.clone(), api_key: user.api_key.clone() });
        } else {
            assert(records.take(i + 1)[i as int].username == username@);
        }
        i += 1;
    }
    assert(records.take(i as int) =~= records);
    let removed = kept.len() != users.len();
    *users = kept;
    removed
}

/// The lines that a listing of the users prints.
pub fn list_users(users: &Vec<User>) -> (lines: Vec<String>)
    ensures
        lines.deep_view() == listing(user_views(users@)),
{
    let mut lines: Vec<String> = Vec::new();
    if users.len() == 0 {
        lines.push(String::from_str("No users found."));
        return lines;
    }
    lines.push(String::from_str("Current users:"));
    let mut i: usize = 0;
    let ghost records = user_views(users@);
    while i < users.len()
        invariant
            i <= users.len(),
            records == user_views(users@),
            lines.deep_view() == seq!["Current users:"@] + Seq::new(
                i as nat,
                |j: int| listing_line(records[j]),
            ),
        decreases users.len() - i,
    {
        let user = &users[i];
        let mut line = String::from_str("Username: ");
        line.append(user.username.as_str());
        line.append(", API Key: ");
        line.append(user.api_key.as_str());
        let ghost before = lines.deep_view();
        lines.push(line);
        assert(lines.deep_view() =~= before.push(listing_line(records[i as int])));
        i += 1;
    }
    lines
}

} // verus!
