//! Users of the shop: roles, accounts, registration and password changes.
use vstd::prelude::*;
use crate::crypto::{check_password, hash_password, password_matches, bcrypt_hash_form, PASSWORD_COST};
use crate::status::{ApiError, STATUS_BAD_REQUEST, STATUS_INTERNAL_SERVER_ERROR, STATUS_UNAUTHORIZED};
use crate::text::{all_ascii, ascii_lower, ascii_small, byte_len, lemma_lowered_is_word, same_ignoring_ascii_case, login_shaped, regex_is_match, same_text, str_lowercase, str_trimmed, to_lower, trim};

verus! {

/// The role of an account.
#[derive(Clone, Copy, Debug, PartialEq, Eq, Structural)]
pub enum UserRola {
    Admin,
    User,
    Guest,
}

impl UserRola {
    /// The role's name, as it is stored in the database.
    pub open spec fn spec_name(&self) -> Seq<char> {
        match self {
            UserRola::Admin => "Admin"@,
            UserRola::User => "User"@,
            UserRola::Guest => "Guest"@,
        }
    }

    pub fn name(&self) -> (r: &'static str)
        ensures
            r@ == self.spec_name(),
    {
        match self {
            UserRola::Admin => "Admin",
            UserRola::User => "User",
            UserRola::Guest => "Guest",
        }
    }
}

/// The role a lower-case role name stands for: "admin", "user", and any
/// other name a guest.
pub open spec fn role_for(lowercase_name: Seq<char>) -> UserRola {
    if lowercase_name == "admin"@ {
        UserRola::Admin
    } else if lowercase_name == "user"@ {
        UserRola::User
    } else {
        UserRola::Guest
    }
}

/// The role for a name already in lower case.
pub fn role_from_lowercase(lowercase_name: &str) -> (r: UserRola)
    ensures
        r == role_for(lowercase_name@),
{
    if same_text(lowercase_name, "admin") {
        UserRola::Admin
    } else if same_text(lowercase_name, "user") {
        UserRola::User
    } else {
        UserRola::Guest
    }
}

/// The role an ASCII role name stands for, ASCII case aside: "admin",
/// "user", and any other name a guest.
pub open spec fn role_ignoring_case(name: Seq<char>) -> UserRola {
    if same_ignoring_ascii_case(name, "admin"@) {
        UserRola::Admin
    } else if same_ignoring_ascii_case(name, "user"@) {
        UserRola::User
    } else {
        UserRola::Guest
    }
}

/// The role a role name stands for, compared without regard to case; for
/// an ASCII name, ASCII case aside.
pub fn match_role(string: &str) -> (r: UserRola)
    ensures
        r == role_for(str_lowercase(string@)),
        all_ascii(string@) ==> r == role_ignoring_case(string@),
{
    let lower = to_lower(string);
    proof {
        if all_ascii(string@) {
            reveal_strlit("admin");
            reveal_strlit("user");
            assert(ascii_small("admin"@));
            assert(ascii_small("user"@));
            lemma_lowered_is_word(string@, lower@, "admin"@);
            lemma_lowered_is_word(string@, lower@, "user"@);
        }
    }
    role_from_lowercase(lower.as_str())
}

/// Role law: the name of a role, as it is stored and written into tokens,
/// reads back as that role.
pub proof fn lemma_role_name_reads_back(role: UserRola)
    ensures
        all_ascii(role.spec_name()),
        role_ignoring_case(role.spec_name()) == role,
{
    reveal_strlit("Admin");
    reveal_strlit("User");
    reveal_strlit("Guest");
    reveal_strlit("admin");
    reveal_strlit("user");
    match role {
        UserRola::Admin => {
            assert(same_ignoring_ascii_case("Admin"@, "admin"@));
        },
        UserRola::User => {
            assert(!same_ignoring_ascii_case("User"@, "admin"@));
            assert(same_ignoring_ascii_case("User"@, "user"@));
        },
        UserRola::Guest => {
            assert(ascii_lower("Guest"@[0]) != ascii_lower("admin"@[0]));
            assert(!same_ignoring_ascii_case("Guest"@, "admin"@));
            assert(!same_ignoring_ascii_case("Guest"@, "user"@));
        },
    }
}

/// A registration form.
#[derive(Debug)]
pub struct RegisterRequest {
    pub username: String,
    pub password: String,
    pub confirm_password: String,
    pub email: Option<String>,
    pub name: Option<String>,
    pub registration_conditions: bool,
}

/// A text field read from a form: blank (empty or white space only) counts
/// as not given.
pub open spec fn non_blank(opt: Option<Seq<char>>) -> Option<Seq<char>> {
    match opt {
        Some(s) => if str_trimmed(s).len() == 0 { None } else { Some(s) },
        None => None,
    }
}

pub open spec fn opt_view(opt: Option<String>) -> Option<Seq<char>> {
    match opt {
        Some(s) => Some(s@),
        None => None,
    }
}

/// Drops a blank text field.
pub fn empty_string_as_none(opt: Option<String>) -> (r: Option<String>)
    ensures
        opt_view(r) == non_blank(opt_view(opt)),
{
    match opt {
        Some(s) => {
            let t = trim(s.as_str());
            if t.unicode_len() == 0 {
                None
            } else {
                Some(s)
            }
        },
        None => None,
    }
}

/// An account.
#[derive(Debug)]
pub struct User {
    pub id: i64,
    pub username: String,
    pub name: Option<String>,
    pub email: Option<String>,
    pub password_hash: String,
    pub permission: UserRola,
    pub valid: bool,
}

impl User {
    /// A new account around a password hash, or the hashing's failure: id 0
    /// (the database gives the real one), the role of a user, not yet
    /// confirmed.
    pub fn z_hasha(
        username: String,
        name: Option<String>,
        email: Option<String>,
        hashed: Result<String, bcrypt::BcryptError>,
    ) -> (r: Result<User, bcrypt::BcryptError>)
        ensures
            match hashed {
                Ok(h) => r is Ok && {
                    let u = r->Ok_0;
                    &&& u.id == 0
                    &&& u.username@ == username@
                    &&& opt_view(u.name) == opt_view(name)
                    &&& opt_view(u.email) == opt_view(email)
                    &&& u.password_hash@ == h@
                    &&& u.permission == UserRola::User
                    &&& !u.valid
                },
                Err(_) => r is Err,
            },
    {
        match hashed {
            Ok(password_hash) => Ok(User {
                id: 0,
                username,
                name,
                email,
                password_hash,
                permission: UserRola::User,
                valid: false,
            }),
            Err(e) => Err(e),
        }
    }

    /// A new account whose password is hashed with the pepper; it fails
    /// only where bcrypt gets no random salt.
    pub fn new(username: String, name: Option<String>, email: Option<String>, password: &str, pepper: &[u8])
        -> (r: Result<User, bcrypt::BcryptError>)
        ensures
            match r {
                Ok(u) => {
                    &&& u.id == 0
                    &&& u.username@ == username@
                    &&& opt_view(u.name) == opt_view(name)
                    &&& opt_view(u.email) == opt_view(email)
                    &&& u.permission == UserRola::User
                    &&& !u.valid
                    &&& password_matches(u.password_hash@, password@, pepper@)
                    &&& bcrypt_hash_form(u.password_hash@, PASSWORD_COST)
                },
                Err(_) => true,
            },
    {
        User::z_hasha(username, name, email, hash_password(password, pepper))
    }

    /// Whether `plain_password` is this account's password.
    pub fn verify_password(&self, plain_password: &str, pepper: &[u8]) -> (r: bool)
        ensures
            r == password_matches(self.password_hash@, plain_password@, pepper@),
    {
        check_password(plain_password, self.password_hash.as_str(), pepper)
    }
}

/// A form field that holds an e-mail address: it is given, holds an '@' and
/// is at least 5 bytes long.
pub open spec fn email_acceptable(email: Option<Seq<char>>) -> bool {
    match email {
        Some(e) => e.contains('@') && byte_len(e) >= 5,
        None => false,
    }
}

/// A password of 8 to 100 bytes.
pub open spec fn password_length_ok(password: Seq<char>) -> bool {
    8 <= byte_len(password) <= 100
}

/// What registration answers for a form, given whether the login matched
/// its pattern: the first failed check, in this order, or success.
pub open spec fn registration_outcome(
    username_matches: bool,
    password: Seq<char>,
    confirm_password: Seq<char>,
    email: Option<Seq<char>>,
    conditions_accepted: bool,
) -> Result<(), (u16, Seq<char>)> {
    if !username_matches {
        Err((400u16, "Login musi mieć od 3 do 20 znaków i może zawierać tylko litery, cyfry oraz znak '_'"@))
    } else if password != confirm_password {
        Err((400u16, "Hasła nie są identyczne"@))
    } else if !email_acceptable(email) {
        Err((400u16, "Niepoprawny format emaila"@))
    } else if !conditions_accepted {
        Err((400u16, "Musisz zaakceptować warunki regulaminu"@))
    } else if !password_length_ok(password) {
        Err((400u16, "Hasło musi mieć od 8 do 100 znaków"@))
    } else {
        Ok(())
    }
}

/// Registration law: a form whose login matches, whose passwords agree,
/// whose e-mail holds '@' and has at least 5 bytes and whose terms are
/// accepted is accepted exactly when the password has 8 to 100 bytes, and
/// refused for its length otherwise.
pub proof fn lemma_registration_password_length(password: Seq<char>, email: Seq<char>)
    requires
        email.contains('@'),
        byte_len(email) >= 5,
    ensures
        registration_outcome(true, password, password, Some(email), true) is Ok
            <==> 8 <= byte_len(password) <= 100,
        !(8 <= byte_len(password) <= 100) ==> registration_outcome(true, password, password, Some(email), true)
            == Err::<(), (u16, Seq<char>)>((400u16, "Hasło musi mieć od 8 do 100 znaków"@)),
{
}

/// Registration law: a login that does not match is refused before
/// anything else is looked at.
pub proof fn lemma_registration_login_first(
    password: Seq<char>,
    confirm_password: Seq<char>,
    email: Option<Seq<char>>,
    conditions_accepted: bool,
)
    ensures
        registration_outcome(false, password, confirm_password, email, conditions_accepted)
            == Err::<(), (u16, Seq<char>)>((400u16,
                "Login musi mieć od 3 do 20 znaków i może zawierać tylko litery, cyfry oraz znak '_'"@)),
{
}

/// An error by its status and message.
pub open spec fn error_view(e: ApiError) -> (u16, Seq<char>) {
    (e.status, e.message@)
}

pub open spec fn unit_outcome(r: Result<(), ApiError>) -> Result<(), (u16, Seq<char>)> {
    match r {
        Ok(()) => Ok(()),
        Err(e) => Err(error_view(e)),
    }
}

/// The checks of a registration form, given whether the login matched its
/// pattern.
pub fn registration_verdict(username_matches: bool, req: &RegisterRequest) -> (r: Result<(), ApiError>)
    ensures
        unit_outcome(r) == registration_outcome(
            username_matches,
            req.password@,
            req.confirm_password@,
            opt_view(req.email),
            req.registration_conditions,
        ),
{
    if !username_matches {
        return Err(ApiError::new(
            STATUS_BAD_REQUEST,
            "Login musi mieć od 3 do 20 znaków i może zawierać tylko litery, cyfry oraz znak '_'",
        ));
    }
    if !same_text(req.password.as_str(), req.confirm_password.as_str()) {
        return Err(ApiError::new(STATUS_BAD_REQUEST, "Hasła nie są identyczne"));
    }
    let email_ok = match &req.email {
        Some(e) => crate::text::contains_char(e.as_str(), '@') && e.as_str().len() >= 5,
        None => false,
    };
    if !email_ok {
        return Err(ApiError::new(STATUS_BAD_REQUEST, "Niepoprawny format emaila"));
    }
    if !req.registration_conditions {
        return Err(ApiError::new(STATUS_BAD_REQUEST, "Musisz zaakceptować warunki regulaminu"));
    }
    let n = req.password.as_str().len();
    if n < 8 || n > 100 {
        return Err(ApiError::new(STATUS_BAD_REQUEST, "Hasło musi mieć od 8 do 100 znaków"));
    }
    Ok(())
}

/// Checks a registration form: the login, without surrounding white space,
/// against `^[a-zA-Z0-9_]{3,20}$`, then the rest as `registration_outcome`
/// says. Gives the login to store.
pub fn sprawdz_rejestracje(req: &RegisterRequest) -> (r: Result<String, ApiError>)
    ensures
        match r {
            Ok(u) => u@ == str_trimmed(req.username@) && registration_outcome(
                login_shaped(str_trimmed(req.username@)),
                req.password@,
                req.confirm_password@,
                opt_view(req.email),
                req.registration_conditions,
            ) is Ok,
            Err(e) => registration_outcome(
                login_shaped(str_trimmed(req.username@)),
                req.password@,
                req.confirm_password@,
                opt_view(req.email),
                req.registration_conditions,
            ) == Err::<(), (u16, Seq<char>)>(error_view(e)),
        },
{
    let username = trim(req.username.as_str());
    match regex_is_match("^[a-zA-Z0-9_]{3,20}$", username) {
        Some(m) => match registration_verdict(m, req) {
            Ok(()) => Ok(username.to_owned()),
            Err(e) => Err(e),
        },
        None => Err(ApiError::new(STATUS_INTERNAL_SERVER_ERROR, "Błędny wzorzec loginu")),
    }
}

/// What a password change stores: if the old password matches the stored
/// hash, a new hash of the new password, peppered, made as at registration,
/// so that the new password signs in (500 where bcrypt gets no random salt);
/// else the change is refused with 401.
pub fn zmien_haslo(old_password: &str, new_password: &str, existing_hash: &str, pepper: &[u8])
    -> (r: Result<String, ApiError>)
    ensures
        match r {
            Ok(stored) => password_matches(existing_hash@, old_password@, pepper@)
                && password_matches(stored@, new_password@, pepper@)
                && bcrypt_hash_form(stored@, PASSWORD_COST),
            Err(e) => if password_matches(existing_hash@, old_password@, pepper@) {
                e.status == STATUS_INTERNAL_SERVER_ERROR && e.message@ == "Błąd hashowania"@
            } else {
                e.status == STATUS_UNAUTHORIZED && e.message@ == "Nieprawidłowe stare hasło"@
            },
        },
{
    if check_password(old_password, existing_hash, pepper) {
        match hash_password(new_password, pepper) {
            Ok(h) => Ok(h),
            Err(_) => Err(ApiError::new(STATUS_INTERNAL_SERVER_ERROR, "Błąd hashowania")),
        }
    } else {
        Err(ApiError::new(STATUS_UNAUTHORIZED, "Nieprawidłowe stare hasło"))
    }
}

} // verus!
