//! The claims of the login service's tokens, and the admission of admins.
use vstd::prelude::*;
use crate::status::{ApiError, STATUS_FORBIDDEN};
use crate::text::same_text;

verus! {

/// What a signed token of the login service says of its holder.
#[derive(Debug)]
pub struct Claims {
    /// The account's id.
    pub sub: u64,
    pub username: String,
    /// The role's name, such as "Admin" or "User".
    pub role: String,
    /// When the token expires (seconds since the epoch).
    pub exp: i64,
}

/// Admits only claims of the role "Admin" (the name exactly): a token that
/// failed to verify keeps its status, with no message; other roles get 403.
pub fn claims_match(verified: Result<Claims, u16>) -> (r: Result<Claims, ApiError>)
    ensures
        match verified {
            Err(s) => r is Err && r->Err_0.status == s && r->Err_0.message@.len() == 0,
            Ok(c) => if c.role@ == "Admin"@ {
                r is Ok && r->Ok_0 == c
            } else {
                r is Err && r->Err_0.status == STATUS_FORBIDDEN
                    && r->Err_0.message@ == "Brak uprawnień administratora. Wymagana rola: Admin"@
            },
        },
{
    match verified {
        Ok(c) => {
            if !same_text(c.role.as_str(), "Admin") {
                return Err(ApiError::new(
                    STATUS_FORBIDDEN,
                    "Brak uprawnień administratora. Wymagana rola: Admin",
                ));
            }
            Ok(c)
        },
        Err(status) => Err(ApiError { status, message: String::new() }),
    }
}

} // verus!
