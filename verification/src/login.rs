//! Accounts of the login service: permission, confirmation and password.
use vstd::prelude::*;
use crate::crypto::{check_password, hash_password, password_matches, bcrypt_hash_form, PASSWORD_COST};

verus! {

/// What an account may do.
#[derive(Clone, Copy, Debug, PartialEq, Eq, Structural)]
pub enum UsrPermit {
    User,
    Admin,
    Guest,
}

/// An account of the login service.
#[derive(Debug)]
pub struct User {
    pub id: i64,
    pub name: String,
    pub permission: UsrPermit,
    pub valid: bool,
    pub password_hash: String,
}

impl User {
    /// A new, unconfirmed account around a password hash, or the hashing's
    /// failure.
    pub fn z_hasha(id: i64, name: String, permission: UsrPermit, hashed: Result<String, bcrypt::BcryptError>)
        -> (r: Result<User, bcrypt::BcryptError>)
        ensures
            match hashed {
                Ok(h) => r is Ok && {
                    let u = r->Ok_0;
                    &&& u.id == id
                    &&& u.name@ == name@
                    &&& u.permission == permission
                    &&& !u.valid
                    &&& u.password_hash@ == h@
                },
                Err(_) => r is Err,
            },
    {
        match hashed {
            Ok(password_hash) => Ok(User { id, name, permission, password_hash, valid: false }),
            Err(e) => Err(e),
        }
    }

    /// A new, unconfirmed account whose password is stored hashed with the
    /// pepper; it fails only where bcrypt gets no random salt.
    pub fn new(id: i64, name: String, permission: UsrPermit, plain_password: &str, pepper: &str)
        -> (r: Result<User, bcrypt::BcryptError>)
        ensures
            match r {
                Ok(u) => {
                    &&& u.id == id
                    &&& u.name@ == name@
                    &&& u.permission == permission
                    &&& !u.valid
                    &&& password_matches(u.password_hash@, plain_password@, vstd::utf8::encode_utf8(pepper@))
                    &&& bcrypt_hash_form(u.password_hash@, PASSWORD_COST)
                },
                Err(_) => true,
            },
    {
        User::z_hasha(id, name, permission, hash_password(plain_password, pepper.as_bytes()))
    }

    /// Whether `plain_password` is this account's password.
    pub fn verify_password(&self, plain_password: &str, pepper: &str) -> (r: bool)
        ensures
            r == password_matches(self.password_hash@, plain_password@, vstd::utf8::encode_utf8(pepper@)),
    {
        check_password(plain_password, self.password_hash.as_str(), pepper.as_bytes())
    }
}

} // verus!
