//! The access gate: role lookup and the three-tier authorization check,
//! consulted before every mutating or listing operation.

use vstd::prelude::*;

use crate::errors::AppError;
use crate::text::str_eq;
use crate::user::{Role, User};

verus! {

/// Whether the role may run mutating commands.
pub open spec fn can_mutate(r: Role) -> bool {
    !(r is Guest)
}

/// Whether the role may run admin-only listings.
pub open spec fn is_admin(r: Role) -> bool {
    r is Admin
}

/// The caller's role from a user lookup: an unknown caller is a guest, not
/// an error.
pub fn role_of(lookup: &Option<User>) -> (r: Role)
    ensures
        match lookup {
            Some(u) => r == u.role,
            None => r is Guest,
        },
{
    match lookup {
        Some(u) => u.role,
        None => Role::Guest,
    }
}

/// Admits every role but `Guest` to mutating commands.
pub fn authorize_mutation(role: Role) -> (r: Result<(), AppError>)
    ensures
        r is Ok <==> can_mutate(role),
        r matches Err(e) ==> e is Unauthorized,
{
    match role {
        Role::Guest => Err(AppError::Unauthorized),
        _ => Ok(()),
    }
}

/// Admits only `Admin` to cross-author listings and user management.
pub fn authorize_admin(role: Role) -> (r: Result<(), AppError>)
    ensures
        r is Ok <==> is_admin(role),
        r matches Err(e) ==> e is Unauthorized,
{
    match role {
        Role::Admin => Ok(()),
        _ => Err(AppError::Unauthorized),
    }
}

/// Gates a service-to-service request on the shared bearer credential: the
/// request must carry exactly the expected token.
pub fn check_auth(authorization: Option<&str>, expected: &str) -> (r: Result<(), AppError>)
    ensures
        r is Ok <==> (authorization matches Some(t) && t@ == expected@),
        r matches Err(e) ==> e is Unauthenticated,
{
    match authorization {
        Some(t) => {
            if str_eq(t, expected) {
                Ok(())
            } else {
                Err(AppError::Unauthenticated)
            }
        },
        None => Err(AppError::Unauthenticated),
    }
}

} // verus!
