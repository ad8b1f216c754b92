//! The rows of the user table.
use vstd::prelude::*;

verus! {

/// A user as stored: `key` is 64 lowercase hex digits, `vault` opaque hex text.
pub struct User {
    pub id: i32,
    pub email: String,
    pub key: String,
    pub vault: String,
}

/// The values of a user row that registration writes; the store assigns `id`.
pub struct NewUser {
    pub email: String,
    pub key: String,
    pub vault: String,
}

/// A user row as a mathematical value.
pub struct UserRow {
    pub id: int,
    pub email: Seq<char>,
    pub key: Seq<char>,
    pub vault: Seq<char>,
}

impl View for User {
    type V = UserRow;

    open spec fn view(&self) -> UserRow {
        UserRow { id: self.id as int, email: self.email@, key: self.key@, vault: self.vault@ }
    }
}

} // verus!
