//! Who may do what: the claims carried by a request's token and the checks
//! made on them.
use vstd::prelude::*;
use crate::sqlite_serv::user::{match_role, role_for, User, UserRola};
use crate::status::{
    ApiError, STATUS_BAD_REQUEST, STATUS_FORBIDDEN, STATUS_INTERNAL_SERVER_ERROR, STATUS_UNAUTHORIZED,
};
use crate::text::{chars_of, same_text, starts_with_text, str_lowercase, string_from_range};

verus! {

/// What a signed token says of its holder.
#[derive(Debug)]
pub struct Claims {
    /// The account's id.
    pub sub: i64,
    pub username: String,
    /// The role's name, such as "Admin" or "User".
    pub role: String,
    /// When the token expires (seconds since the epoch).
    pub exp: i64,
}

/// The claims of a request that may carry no valid token.
#[derive(Debug)]
pub struct OptionalClaims(pub Option<Claims>);

/// The role the claims give, the name compared without regard to case.
pub open spec fn claimed_role(claims: Claims) -> UserRola {
    role_for(str_lowercase(claims.role@))
}

/// Refusal with 403 and `message`, or success.
pub open spec fn forbidden_unless(allowed: bool, message: Seq<char>) -> Result<(), (u16, Seq<char>)> {
    if allowed {
        Ok(())
    } else {
        Err((403u16, message))
    }
}

pub open spec fn unit_outcome(r: Result<(), ApiError>) -> Result<(), (u16, Seq<char>)> {
    match r {
        Ok(()) => Ok(()),
        Err(e) => Err((e.status, e.message@)),
    }
}

/// Only an admin passes.
pub fn check_is_admin(claims: &Claims) -> (r: Result<(), ApiError>)
    ensures
        unit_outcome(r) == forbidden_unless(
            claimed_role(*claims) == UserRola::Admin,
            "Brak uprawnień. Ta operacja wymaga roli Admin."@,
        ),
{
    let rola = match_role(claims.role.as_str());
    if rola != UserRola::Admin {
        return Err(ApiError::new(STATUS_FORBIDDEN, "Brak uprawnień. Ta operacja wymaga roli Admin."));
    }
    Ok(())
}

/// An admin or a user passes; a guest does not.
pub fn check_is_user(claims: &Claims) -> (r: Result<(), ApiError>)
    ensures
        unit_outcome(r) == forbidden_unless(
            claimed_role(*claims) == UserRola::Admin || claimed_role(*claims) == UserRola::User,
            "Brak uprawnień. Ta operacja wymaga roli Admin|User."@,
        ),
{
    let rola = match_role(claims.role.as_str());
    match rola {
        UserRola::Admin | UserRola::User => Ok(()),
        UserRola::Guest => Err(ApiError::new(
            STATUS_FORBIDDEN,
            "Brak uprawnień. Ta operacja wymaga roli Admin|User.",
        )),
    }
}

/// What passes `check_is_admin` passes `check_is_user`.
pub proof fn lemma_admin_passes_user_check(claims: Claims)
    requires
        claimed_role(claims) == UserRola::Admin,
    ensures
        forbidden_unless(
            claimed_role(claims) == UserRola::Admin || claimed_role(claims) == UserRola::User,
            "Brak uprawnień. Ta operacja wymaga roli Admin|User."@,
        ) is Ok,
{
}

/// Only the holder of the account passes: the claims' id is the account's.
pub fn check_is_own_acc(claims: &Claims, payload: &User) -> (r: Result<(), ApiError>)
    ensures
        unit_outcome(r) == forbidden_unless(claims.sub == payload.id, "Błędny użytkownik (mismatch id)."@),
{
    if claims.sub != payload.id {
        return Err(ApiError::new(STATUS_FORBIDDEN, "Błędny użytkownik (mismatch id)."));
    }
    Ok(())
}

/// The verdict on an account's confirmation flag as read from the database:
/// a failed read is a server error, an unconfirmed account is refused.
pub fn check_is_valid(user_valid: Option<bool>) -> (r: Result<(), ApiError>)
    ensures
        unit_outcome(r) == match user_valid {
            None => Err((500u16, "Błąd wewnętrzny serwera."@)),
            Some(v) => forbidden_unless(v, "Twoje konto nie jest aktywne lub zweryfikowane."@),
        },
{
    match user_valid {
        None => Err(ApiError::new(STATUS_INTERNAL_SERVER_ERROR, "Błąd wewnętrzny serwera.")),
        Some(true) => Ok(()),
        Some(false) => Err(ApiError::new(
            STATUS_FORBIDDEN,
            "Twoje konto nie jest aktywne lub zweryfikowane.",
        )),
    }
}

/// The token in an `Authorization` header: no header is 401, a header that
/// does not start with "Bearer " is 400, else the token is what follows.
pub fn bearer_token(header: Option<&str>) -> (r: Result<String, u16>)
    ensures
        match header {
            None => r == Err::<String, u16>(401u16),
            Some(h) => if h@.len() >= 7 && h@.take(7) == "Bearer "@ {
                r is Ok && r->Ok_0@ == h@.skip(7)
            } else {
                r == Err::<String, u16>(400u16)
            },
        },
{
    match header {
        None => Err(STATUS_UNAUTHORIZED),
        Some(h) => {
            proof {
                reveal_strlit("Bearer ");
            }
            if starts_with_text(h, "Bearer ") {
                let chars = chars_of(h);
                let token = string_from_range(&chars, 7, chars.len());
                assert(token@ =~= h@.skip(7));
                Ok(token)
            } else {
                Err(STATUS_BAD_REQUEST)
            }
        },
    }
}

/// Admits only claims of the role "Admin" (the name exactly): a token that
/// failed to verify keeps its status, with no message; other roles get 403.
pub fn claims_match(verified: Result<Claims, u16>) -> (r: Result<Claims, ApiError>)
    ensures
        match verified {
            Err(s) => r is Err && r->Err_0.status == s && r->Err_0.message@.len() == 0,
            Ok(c) => if c.role@ == "Admin"@ {
                r is Ok && r->Ok_0 == c
            } else {
                r is Err && r->Err_0.status == STATUS_FORBIDDEN
                    && r->Err_0.message@ == "Brak uprawnień administratora. Wymagana rola: Admin"@
            },
        },
{
    match verified {
        Ok(c) => {
            if !same_text(c.role.as_str(), "Admin") {
                return Err(ApiError::new(
                    STATUS_FORBIDDEN,
                    "Brak uprawnień administratora. Wymagana rola: Admin",
                ));
            }
            Ok(c)
        },
        Err(status) => Err(ApiError { status, message: String::new() }),
    }
}

/// Only claims whose role is exactly "Admin" pass; others get 403.
pub fn tylko_admin(claims: &Claims) -> (r: Result<(), ApiError>)
    ensures
        unit_outcome(r) == forbidden_unless(claims.role@ == "Admin"@, "Brak uprawnień. Ta operacja wymaga roli Admin."@),
{
    if !same_text(claims.role.as_str(), "Admin") {
        return Err(ApiError::new(STATUS_FORBIDDEN, "Brak uprawnień. Ta operacja wymaga roli Admin."));
    }
    Ok(())
}

/// A failed database write: a foreign key that forbids it, or another
/// failure with its message.
pub enum BladBazy {
    NaruszenieKlucza,
    Inny(String),
}

/// The answer to deleting an account: a foreign key in the way is 409,
/// another failure 500 with its message, no row deleted 404 with
/// `brak_konta`, else success.
pub fn wynik_usuniecia(wynik: Result<u64, BladBazy>, brak_konta: &str) -> (r: Result<(), ApiError>)
    ensures
        unit_outcome(r) == match wynik {
            Err(BladBazy::NaruszenieKlucza) => Err((409u16,
                "Nie można usunąć użytkownika, ponieważ znajduje się w zamówieniach."@)),
            Err(BladBazy::Inny(m)) => Err((500u16, m@)),
            Ok(n) => if n == 0 { Err((404u16, brak_konta@)) } else { Ok(()) },
        },
{
    match wynik {
        Err(BladBazy::NaruszenieKlucza) => Err(ApiError::new(
            crate::status::STATUS_CONFLICT,
            "Nie można usunąć użytkownika, ponieważ znajduje się w zamówieniach.",
        )),
        Err(BladBazy::Inny(m)) => Err(ApiError { status: STATUS_INTERNAL_SERVER_ERROR, message: m }),
        Ok(n) => {
            if n == 0 {
                Err(ApiError::new(crate::status::STATUS_NOT_FOUND, brak_konta))
            } else {
                Ok(())
            }
        },
    }
}

} // verus!
