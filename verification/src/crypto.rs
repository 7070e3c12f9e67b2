//! Password hashing: HMAC-SHA512 with a secret pepper, written in lower-case
//! hex, then bcrypt over that.
use vstd::prelude::*;
use hmac::Mac;
use crate::text::decimal;

verus! {

/// The HMAC-SHA512 tag of `message` under `key`.
pub uninterp spec fn hmac_sha512_of(key: Seq<u8>, message: Seq<u8>) -> Seq<u8>;

/// `hmac::SimpleHmac::<sha2::Sha512>`: keyed with `key` (any length is taken:
/// a long key is hashed first), fed `message`, finalised. The tag is the
/// named one, and 64 bytes long, the output size of SHA-512.
#[verifier::external_body]
pub(crate) fn hmac_sha512(key: &[u8], message: &[u8]) -> (r: Vec<u8>)
    ensures
        r@ == hmac_sha512_of(key@, message@),
        r@.len() == 64,
{
    let mut mac = <hmac::SimpleHmac<sha2::Sha512> as Mac>::new_from_slice(key)
        .expect("SimpleHmac takes keys of every length");
    mac.update(message);
    mac.finalize().into_bytes().to_vec()
}

/// The lower-case hex digit for `d` (0 to 15).
pub open spec fn hex_digit(d: int) -> char {
    if d == 0 { '0' }
    else if d == 1 { '1' }
    else if d == 2 { '2' }
    else if d == 3 { '3' }
    else if d == 4 { '4' }
    else if d == 5 { '5' }
    else if d == 6 { '6' }
    else if d == 7 { '7' }
    else if d == 8 { '8' }
    else if d == 9 { '9' }
    else if d == 10 { 'a' }
    else if d == 11 { 'b' }
    else if d == 12 { 'c' }
    else if d == 13 { 'd' }
    else if d == 14 { 'e' }
    else { 'f' }
}

/// Bytes written as lower-case hex, two digits a byte, high half first.
pub open spec fn hex_lower(bytes: Seq<u8>) -> Seq<char> {
    Seq::new(2 * bytes.len(), |i: int|
        if i % 2 == 0 { hex_digit(bytes[i / 2] as int / 16) } else { hex_digit(bytes[i / 2] as int % 16) })
}

fn hex_digit_char(d: u8) -> (c: char)
    requires
        d < 16,
    ensures
        c == hex_digit(d as int),
{
    if d == 0 { '0' }
    else if d == 1 { '1' }
    else if d == 2 { '2' }
    else if d == 3 { '3' }
    else if d == 4 { '4' }
    else if d == 5 { '5' }
    else if d == 6 { '6' }
    else if d == 7 { '7' }
    else if d == 8 { '8' }
    else if d == 9 { '9' }
    else if d == 10 { 'a' }
    else if d == 11 { 'b' }
    else if d == 12 { 'c' }
    else if d == 13 { 'd' }
    else if d == 14 { 'e' }
    else { 'f' }
}

/// Writes bytes as lower-case hex, as `hex::encode` does.
pub fn hex_encode(bytes: &[u8]) -> (r: String)
    ensures
        r@ == hex_lower(bytes@),
{
    let mut r = String::new();
    let mut i: usize = 0;
    while i < bytes.len()
        invariant
            i <= bytes@.len(),
            r@ == hex_lower(bytes@).take(2 * i),
        decreases bytes@.len() - i,
    {
        let b = bytes[i];
        let hi = hex_digit_char(b / 16);
        let lo = hex_digit_char(b % 16);
        crate::text::push_char(&mut r, hi);
        crate::text::push_char(&mut r, lo);
        proof {
            let h = hex_lower(bytes@);
            assert((2 * i) % 2 == 0 && (2 * i) / 2 == i);
            assert((2 * i + 1) % 2 == 1 && (2 * i + 1) / 2 == i);
            assert(h[2 * i] == hi);
            assert(h[2 * i + 1] == lo);
            assert(r@ =~= h.take(2 * i + 2));
        }
        i = i + 1;
    }
    assert(hex_lower(bytes@).take(2 * bytes@.len() as int) =~= hex_lower(bytes@));
    r
}

/// A password as it goes to bcrypt: the HMAC-SHA512 of its UTF-8 bytes
/// under the pepper, in lower-case hex.
pub open spec fn peppered_form(password: Seq<char>, pepper: Seq<u8>) -> Seq<char> {
    hex_lower(hmac_sha512_of(pepper, vstd::utf8::encode_utf8(password)))
}

/// Peppers a password: HMAC-SHA512 under `pepper`, in lower-case hex.
pub fn pepper_password(plain_password: &str, pepper: &[u8]) -> (r: String)
    ensures
        r@ == peppered_form(plain_password@, pepper@),
        r@.len() == 128,
{
    let tag = hmac_sha512(pepper, plain_password.as_bytes());
    hex_encode(tag.as_slice())
}

#[verifier::external_type_specification]
#[verifier::external_body]
pub struct ExBcryptError(bcrypt::BcryptError);

/// What `bcrypt::verify` says of a password and a stored hash: whether the
/// password hashes to it (`None` where it fails, as for a malformed hash).
pub uninterp spec fn bcrypt_verdict(password: Seq<char>, hash: Seq<char>) -> Option<bool>;

/// How a bcrypt hash of version 2b at `cost` begins: "$2b$", the cost in
/// two digits, "$".
pub open spec fn bcrypt_header(cost: u32) -> Seq<char> {
    "$2b$"@ + (if cost < 10 { "0"@ } else { Seq::empty() }) + decimal(cost as nat) + "$"@
}

/// A bcrypt hash as `bcrypt::hash` writes it at `cost`: 60 characters that
/// begin with the version and the cost.
pub open spec fn bcrypt_hash_form(h: Seq<char>, cost: u32) -> bool {
    h.len() == 60 && h.take(7) == bcrypt_header(cost)
}

/// `bcrypt::hash` with a random salt. The cost is one that bcrypt takes, so
/// it fails only where no random salt can be had. A hash it gives is 60
/// characters long, written in version 2b with the cost given, and
/// `bcrypt::verify` accepts the password against it: verify reads the cost
/// and salt back from the hash and hashes again. Which hash comes back, and
/// whether the salt could be had, is left unsaid: it rests on the system's
/// random source.
#[verifier::external_body]
pub(crate) fn bcrypt_hash(password: &str, cost: u32) -> (r: Result<String, bcrypt::BcryptError>)
    requires
        4 <= cost <= 31,
    ensures
        match r {
            Ok(h) => bcrypt_verdict(password@, h@) == Some(true) && bcrypt_hash_form(h@, cost),
            Err(_) => true,
        },
{
    bcrypt::hash(password, cost)
}

/// `bcrypt::verify`: whether `password` hashes to `hash`, or the failure to
/// read `hash`.
#[verifier::external_body]
pub(crate) fn bcrypt_verify(password: &str, hash: &str) -> (r: Result<bool, bcrypt::BcryptError>)
    ensures
        match r {
            Ok(b) => bcrypt_verdict(password@, hash@) == Some(b),
            Err(_) => bcrypt_verdict(password@, hash@) is None,
        },
{
    bcrypt::verify(password, hash)
}

/// Whether a password, peppered, matches a stored bcrypt hash; a hash that
/// cannot be read matches nothing.
pub open spec fn password_matches(hash: Seq<char>, password: Seq<char>, pepper: Seq<u8>) -> bool {
    bcrypt_verdict(peppered_form(password, pepper), hash) == Some(true)
}

/// The bcrypt cost at which passwords are stored.
pub const PASSWORD_COST: u32 = 12;

/// Hashes a password for storage: peppered, then bcrypt at cost 12. It
/// fails only where bcrypt gets no random salt.
pub fn hash_password(plain_password: &str, pepper: &[u8]) -> (r: Result<String, bcrypt::BcryptError>)
    ensures
        match r {
            Ok(h) => password_matches(h@, plain_password@, pepper@) && bcrypt_hash_form(h@, PASSWORD_COST),
            Err(_) => true,
        },
{
    let peppered = pepper_password(plain_password, pepper);
    bcrypt_hash(peppered.as_str(), PASSWORD_COST)
}

/// Whether a password matches a stored hash: peppered, then checked with
/// bcrypt; a hash that cannot be read gives `false`.
pub fn check_password(plain_password: &str, stored_hash: &str, pepper: &[u8]) -> (r: bool)
    ensures
        r == password_matches(stored_hash@, plain_password@, pepper@),
{
    let peppered = pepper_password(plain_password, pepper);
    match bcrypt_verify(peppered.as_str(), stored_hash) {
        Ok(b) => b,
        Err(_) => false,
    }
}

} // verus!
