//! A user record and its builder.

use vstd::prelude::*;

verus! {

#[derive(Debug)]
pub struct User {
    pub username: String,
    pub email: String,
    pub active: bool,
    pub sign_in_count: u64,
}

/// Build an active user with a single sign-in from an email and a username.
pub fn build_user(email: String, username: String) -> (r: User)
    ensures
        r.email == email,
        r.username == username,
        r.active == true,
        r.sign_in_count == 1,
{
    User { email, username, active: true, sign_in_count: 1 }
}

} // verus!
