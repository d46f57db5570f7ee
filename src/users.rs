//! Looking up a user, in a setting where no user database is connected.

use vstd::prelude::*;

verus! {

/// Why a user could not be looked up.
#[derive(Debug, Clone, Copy, PartialEq, Eq, Structural)]
pub enum UserError {
    DBNotFound,
}

/// A known user.
#[derive(Debug, Clone, Copy, PartialEq, Eq, Structural)]
pub struct User;

/// A connection to the user database.
struct Db;

/// The user database; none is configured, so there is never one.
fn get_db() -> (r: Option<Db>)
    ensures
        r.is_none(),
{
    None
}

/// Whether two texts hold the same characters.
fn same_text(a: &str, b: &str) -> (r: bool)
    ensures
        r == (a@ == b@),
{
    let n: usize = a.unicode_len();
    if n != b.unicode_len() {
        return false;
    }
    let mut i: usize = 0;
    while i < n
        invariant
            n == a@.len() == b@.len(),
            i <= n,
            forall|k: int| 0 <= k < i ==> a@[k] == b@[k],
        decreases n - i,
    {
        if a.get_char(i) != b.get_char(i) {
            return false;
        }
        i += 1;
    }
    assert(a@ =~= b@);
    true
}

/// Looks `name` up: the user "John Doe" is known, anyone else is not. With
/// no database to ask, every lookup fails with `DBNotFound`.
pub fn get_user(name: &str) -> (r: Result<Option<User>, UserError>)
    ensures
        r == Err::<Option<User>, UserError>(UserError::DBNotFound),
{
    match get_db() {
        None => Err(UserError::DBNotFound),
        Some(_) => {
            if same_text(name, "John Doe") {
                Ok(Some(User))
            } else {
                Ok(None)
            }
        },
    }
}

} // verus!
