//! The service's users and their access scopes.
use vstd::prelude::*;

verus! {

/// A user registering with the service.
#[derive(Debug)]
pub struct User {
    pub first_name: String,
    pub middle_name: String,
    pub last_name: String,
    pub email: String,
    pub phone_number: String,
    pub username: String,
    pub password: String,
}

/// The scopes that a user of the service may hold.
#[derive(Clone, Copy, Debug, PartialEq, Eq, Structural)]
pub enum Scope {
    Guest,
    User,
    Admin,
}

impl Default for Scope {
    /// A user holds the guest scope until granted another.
    fn default() -> (r: Self)
        ensures
            r == Scope::Guest,
    {
        Scope::Guest
    }
}

} // verus!
