//! Roles: the capabilities that a user can hold.

use vstd::prelude::*;

verus! {

/// A capability of a user. Roles are told apart by equality alone: none
/// includes another.
#[derive(Clone, Copy, Debug, PartialEq, Eq, Structural)]
pub enum Role {
    /// May do what is reserved to administrators: enter a private room
    /// without being a member of it, and issue invite tokens.
    Admin,
    /// A moderator of the service.
    Moderator,
    /// An ordinary user.
    Member,
}

impl Role {
    /// The administrator role.
    pub fn generate_admin() -> (role: Role)
        ensures
            role == Role::Admin,
    {
        Role::Admin
    }
}

} // verus!
