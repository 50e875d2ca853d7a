//! A user record and its factory.

use vstd::prelude::*;

verus! {

/// An account holder: names, address, and activity.
#[derive(Debug)]
pub struct User {
    pub username: String,
    pub email: String,
    pub sign_in_count: u64,
    pub active: bool,
}

/// Makes a fresh, active user with a single sign-in on record.
pub fn build_user(email: String, username: String) -> (u: User)
    ensures
        u.email == email,
        u.username == username,
        u.active == true,
        u.sign_in_count == 1,
{
    User { email, username, active: true, sign_in_count: 1 }
}

} // verus!
