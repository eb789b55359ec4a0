//! What each request does, once it has been read and before it is answered.

pub mod auth;
pub mod language;
pub mod role;
pub mod theatre;
pub mod user;

use vstd::prelude::*;
use crate::claims::{JwtClaims, JwtType};
use crate::error::{DatabaseError, ErrorType};
use crate::model::User;
use crate::services::user::{UserResource, UserService};

verus! {

/// Whom the claims of a caller stand for.
pub open spec fn caller_spec(claims: JwtClaims, users: UserService) -> Result<User, ErrorType> {
    match claims.dat {
        JwtType::User(id) => match users.found_by_id(id) {
            Some(user) => Ok(user),
            None => Err(ErrorType::Database(DatabaseError::Other)),
        },
        _ => Err(ErrorType::NoAuth),
    }
}

/// Finds the user that the claims of a caller stand for. Claims of another
/// trust domain authenticate nobody; claims that name a user who is not in the
/// table, or no longer, are the store's trouble.
pub fn user_res_from_jwt(claims: &JwtClaims, user_service: &UserService) -> (r: Result<
    (UserResource, User),
    ErrorType,
>)
    ensures
        match r {
            Ok(found) => caller_spec(*claims, *user_service) == Ok::<User, ErrorType>(found.1)
                && found.0.user() == found.1,
            Err(e) => caller_spec(*claims, *user_service) == Err::<User, ErrorType>(e),
        },
{
    let user_id = match claims.dat {
        JwtType::User(id) => id,
        _ => {
            return Err(ErrorType::NoAuth);
        },
    };
    match user_service.get_by_id(user_id) {
        Some(resource) => {
            let user = resource.get().duplicate();
            Ok((resource, user))
        },
        None => Err(ErrorType::Database(DatabaseError::Other)),
    }
}

} // verus!
