//! The server's own decisions: registration of the login service, signing
//! in, the console commands that stop it and the limits it is configured
//! with.
use vstd::prelude::*;
use crate::parse::{parse_u32, parse_u64, parsed};
use crate::sqlite_serv::auth::Claims;
use crate::sqlite_serv::user::User;
use crate::crypto::password_matches;
use crate::status::{ApiError, STATUS_BAD_REQUEST, STATUS_INTERNAL_SERVER_ERROR, STATUS_UNAUTHORIZED};
use crate::text::{ascii_lower, byte_len, same_ignoring_ascii_case, chars_of, login_shaped, regex_is_match, str_trimmed, trim};

verus! {

/// What a successful sign-in answers.
#[derive(Debug)]
pub struct LoginResponse {
    pub token: String,
    pub username: String,
    pub role: String,
}

/// The answer to a registration with the login service, given whether the
/// login matched its pattern: the login first, then a password of 8 to 100
/// bytes.
pub open spec fn register_outcome(username_matches: bool, password: Seq<char>) -> Result<(), (u16, Seq<char>)> {
    if !username_matches {
        Err((400u16, "Login musi mieć od 3 do 20 znaków i zawierać tylko litery, cyfry oraz znak '_'"@))
    } else if !(8 <= byte_len(password) <= 100) {
        Err((400u16, "Hasło musi mieć od 8 do 100 znaków"@))
    } else {
        Ok(())
    }
}

/// Registration law: with a matching login, a password is accepted
/// exactly when it has 8 to 100 bytes.
pub proof fn lemma_register_password_length(password: Seq<char>)
    ensures
        register_outcome(true, password) is Ok <==> 8 <= byte_len(password) <= 100,
        register_outcome(false, password) is Err,
{
}

/// Checks a registration with the login service: the login, without
/// surrounding white space, against `^[a-zA-Z0-9_]{3,20}$`, then the
/// password's length. Gives the login to store.
pub fn sprawdz_rejestracje_serwera(username: &str, password: &str) -> (r: Result<String, ApiError>)
    ensures
        match r {
            Ok(u) => u@ == str_trimmed(username@)
                && register_outcome(login_shaped(str_trimmed(username@)), password@) is Ok,
            Err(e) => register_outcome(login_shaped(str_trimmed(username@)), password@)
                == Err::<(), (u16, Seq<char>)>((e.status, e.message@)),
        },
{
    let login = trim(username);
    match regex_is_match("^[a-zA-Z0-9_]{3,20}$", login) {
        None => Err(ApiError::new(STATUS_INTERNAL_SERVER_ERROR, "Błędny wzorzec loginu")),
        Some(false) => Err(ApiError::new(
            STATUS_BAD_REQUEST,
            "Login musi mieć od 3 do 20 znaków i zawierać tylko litery, cyfry oraz znak '_'",
        )),
        Some(true) => {
            let n = password.len();
            if n < 8 || n > 100 {
                Err(ApiError::new(STATUS_BAD_REQUEST, "Hasło musi mieć od 8 do 100 znaków"))
            } else {
                Ok(login.to_owned())
            }
        },
    }
}

/// The claims a signed-in user gets: the account's id and login, the role's
/// name, and when the token expires.
pub open spec fn claims_for(user: User, expiration: i64) -> (i64, Seq<char>, Seq<char>, i64) {
    (user.id, user.username@, user.permission.spec_name(), expiration)
}

/// Signing in: an account that was not found is 401, a failed lookup 500,
/// a wrong password 401; else the claims to sign.
pub fn zaloguj(found: Result<Option<User>, String>, password: &str, pepper: &[u8], expiration: i64)
    -> (r: Result<Claims, ApiError>)
    ensures
        match found {
            Err(_) => r is Err && r->Err_0.status == STATUS_INTERNAL_SERVER_ERROR
                && r->Err_0.message@ == "Błąd serwera"@,
            Ok(None) => r is Err && r->Err_0.status == STATUS_UNAUTHORIZED
                && r->Err_0.message@ == "Użytkownik nie istnieje"@,
            Ok(Some(u)) => if password_matches(u.password_hash@, password@, pepper@) {
                r is Ok && (r->Ok_0.sub, r->Ok_0.username@, r->Ok_0.role@, r->Ok_0.exp) == claims_for(u, expiration)
            } else {
                r is Err && r->Err_0.status == STATUS_UNAUTHORIZED && r->Err_0.message@ == "Niepoprawne hasło"@
            },
        },
{
    match found {
        Err(_) => Err(ApiError::new(STATUS_INTERNAL_SERVER_ERROR, "Błąd serwera")),
        Ok(None) => Err(ApiError::new(STATUS_UNAUTHORIZED, "Użytkownik nie istnieje")),
        Ok(Some(user)) => {
            if user.verify_password(password, pepper) {
                let role = user.permission.name().to_owned();
                Ok(Claims { sub: user.id, username: user.username, role, exp: expiration })
            } else {
                Err(ApiError::new(STATUS_UNAUTHORIZED, "Niepoprawne hasło"))
            }
        },
    }
}

/// The answer to a sign-in: the signed token, and the login and role from
/// the claims.
pub fn login_response(token: String, claims: Claims) -> (r: LoginResponse)
    ensures
        r.token == token,
        r.username == claims.username,
        r.role == claims.role,
{
    LoginResponse { token, username: claims.username, role: claims.role }
}


fn lower_ascii(c: char) -> (r: u32)
    ensures
        r == ascii_lower(c),
{
    if 'A' <= c && c <= 'Z' {
        (c as u32) + 32
    } else {
        c as u32
    }
}

/// `str::eq_ignore_ascii_case` for texts whose characters are compared one
/// by one.
pub fn eq_ignore_ascii_case(a: &str, b: &str) -> (r: bool)
    ensures
        r == same_ignoring_ascii_case(a@, b@),
{
    let x = chars_of(a);
    let y = chars_of(b);
    if x.len() != y.len() {
        return false;
    }
    let mut i: usize = 0;
    while i < x.len()
        invariant
            x@ == a@,
            y@ == b@,
            x@.len() == y@.len(),
            i <= x@.len(),
            forall|k: int| 0 <= k < i ==> ascii_lower(#[trigger] x@[k]) == ascii_lower(y@[k]),
        decreases x@.len() - i,
    {
        if lower_ascii(x[i]) != lower_ascii(y[i]) {
            return false;
        }
        i = i + 1;
    }
    true
}

/// A console line that stops the server: "exit" or "stop", in any case,
/// with white space around it allowed.
pub fn is_shutdown_command(line: &str) -> (r: bool)
    ensures
        r == (same_ignoring_ascii_case(str_trimmed(line@), "exit"@)
            || same_ignoring_ascii_case(str_trimmed(line@), "stop"@)),
{
    let trimmed = trim(line);
    eq_ignore_ascii_case(trimmed, "exit") || eq_ignore_ascii_case(trimmed, "stop")
}

/// A configured burst size, 5 where it is not a number.
pub fn burst_size_or_default(value: &str) -> (r: u32)
    ensures
        r as int == match parsed(value@, false, 0, u32::MAX as int) {
            Some(v) => v,
            None => 5,
        },
{
    match parse_u32(value) {
        Some(v) => v,
        None => 5,
    }
}

/// A configured rate limit, 2 where it is not a number.
pub fn rate_limit_or_default(value: &str) -> (r: u64)
    ensures
        r as int == match parsed(value@, false, 0, u64::MAX as int) {
            Some(v) => v,
            None => 2,
        },
{
    match parse_u64(value) {
        Some(v) => v,
        None => 2,
    }
}

} // verus!
