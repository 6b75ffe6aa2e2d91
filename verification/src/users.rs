//! User accounts.

use vstd::prelude::*;

verus! {

/// A user account.
pub struct User {
    pub active: bool,
    pub username: String,
    pub email: String,
    pub sign_in_count: u64,
}

/// Builds an active account with one sign-in.
pub fn build_user(email: String, username: String) -> (r: User)
    ensures
        r.active,
        r.username == username,
        r.email == email,
        r.sign_in_count == 1,
{
    User { active: true, username: username, email: email, sign_in_count: 1 }
}

/// Builds an active account with one sign-in, with the field shorthand.
pub fn build_user_alt(email: String, username: String) -> (r: User)
    ensures
        r.active,
        r.username == username,
        r.email == email,
        r.sign_in_count == 1,
{
    User { active: true, username, email, sign_in_count: 1 }
}

} // verus!
