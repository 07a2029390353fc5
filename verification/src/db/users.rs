//! Users as stored: a row becomes a `User` once its role parses.

use vstd::prelude::*;

use crate::domain::user::{role_keyword, Role, User};
use crate::text::{concat3, lowercase_of};

verus! {

/// The columns of a `users` row.
#[derive(Debug, Clone)]
pub struct UserRow {
    pub id: String,
    pub email: String,
    pub password_hash: String,
    pub name: String,
    pub role: String,
    pub created_at: String,
    pub updated_at: String,
}

/// The user stored in a row, or the text of the error when its role is not
/// one of the four roles.
pub fn user_from_row(row: UserRow) -> (r: Result<User, String>)
    ensures
        r is Ok <==> role_keyword(lowercase_of(row.role@)) is Some,
        r matches Ok(u) ==> {
            &&& Some(u.role) == role_keyword(lowercase_of(row.role@))
            &&& u.id@ == row.id@ && u.email@ == row.email@ && u.password_hash@ == row.password_hash@
            &&& u.name@ == row.name@ && u.created_at@ == row.created_at@ && u.updated_at@ == row.updated_at@
        },
        r matches Err(m) ==> m@ == "Invalid role '"@ + row.role@ + "' in database: "@ + ("Invalid value: "@ + ("Unknown role: "@ + row.role@)),
{
    let role = match Role::from_str(row.role.as_str()) {
        Ok(role) => role,
        Err(e) => {
            let mut m = concat3("Invalid role '", row.role.as_str(), "' in database: ");
            m.append(e.message().as_str());
            return Err(m);
        },
    };
    Ok(User {
        id: row.id,
        email: row.email,
        password_hash: row.password_hash,
        name: row.name,
        role,
        created_at: row.created_at,
        updated_at: row.updated_at,
    })
}

} // verus!
