//! Ownership Guard: may the resolved identity mutate this resource?
//!
//! A pure comparison, applied before every mutation of a resource that
//! carries an owner: post edits and deletions, account self-edits.

use vstd::prelude::*;

use crate::errors::AppError;
use crate::schemas::UserSchema;

verus! {

/// Allows the mutation exactly when the resolved identity is the owner;
/// everyone else is denied with `CantDoThis`.
pub fn authorize(identity: &UserSchema, resource_owner_id: u64) -> (r: Result<(), AppError>)
    ensures
        identity.id == resource_owner_id ==> r == Ok::<(), AppError>(()),
        identity.id != resource_owner_id ==> r == Err::<(), AppError>(AppError::CantDoThis),
{
    if identity.id == resource_owner_id {
        Ok(())
    } else {
        Err(AppError::CantDoThis)
    }
}

} // verus!
