//! Users as the rest of the system sees them: the public shape without
//! the password hash, the stored row with it, and the conversion between
//! the two.

use vstd::prelude::*;

verus! {

/// A user as handed to callers: no password material.
pub struct User {
    pub id: i64,
    pub username: String,
    pub email: Option<String>,
    pub is_staff: bool,
}

/// A stored user row; `is_staff` is kept as the integer the store uses,
/// where any non-zero value means staff.
pub struct UserRow {
    pub id: i64,
    pub username: String,
    pub password_hash: String,
    pub email: Option<String>,
    pub is_staff: i64,
}

impl From<UserRow> for User {
    /// Drops the password hash and reads the staff flag.
    fn from(r: UserRow) -> (u: User) {
        User { id: r.id, username: r.username, email: r.email, is_staff: r.is_staff != 0 }
    }
}

impl vstd::std_specs::convert::FromSpecImpl<UserRow> for User {
    open spec fn obeys_from_spec() -> bool {
        true
    }

    open spec fn from_spec(r: UserRow) -> User {
        User { id: r.id, username: r.username, email: r.email, is_staff: r.is_staff != 0 }
    }
}

/// A request's authenticated user.
pub struct AuthUser(pub User);

} // verus!
