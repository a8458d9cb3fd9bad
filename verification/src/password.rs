//! Argon2id password hashing in PHC string form.

use vstd::prelude::*;
use argon2::password_hash::{PasswordHash, PasswordHasher, PasswordVerifier, SaltString};
use argon2::Argon2;
use crate::codes::os_random_bytes;

verus! {

/// The PHC string that `Argon2::default()` (Argon2id, version 19, default
/// cost) produces for a password and a B64 salt, or `None` when it refuses
/// them.
pub uninterp spec fn argon2_phc(password: Seq<char>, salt: Seq<char>) -> Option<Seq<char>>;

/// Whether a password checks out against a PHC string: the string parses and
/// rehashing the password with its salt and parameters gives its hash.
pub uninterp spec fn phc_verifies(password: Seq<char>, phc: Seq<char>) -> bool;

/// The characters of the "B64" encoding (standard Base64) by value.
pub open spec fn b64_alphabet() -> Seq<char> {
    seq![
        'A', 'B', 'C', 'D', 'E', 'F', 'G', 'H', 'I', 'J', 'K', 'L', 'M', 'N', 'O', 'P', 'Q', 'R', 'S',
        'T', 'U', 'V', 'W', 'X', 'Y', 'Z', 'a', 'b', 'c', 'd', 'e', 'f', 'g', 'h', 'i', 'j', 'k', 'l',
        'm', 'n', 'o', 'p', 'q', 'r', 's', 't', 'u', 'v', 'w', 'x', 'y', 'z', '0', '1', '2', '3', '4',
        '5', '6', '7', '8', '9', '+', '/',
    ]
}

/// "B64", the encoding of salts and hashes in PHC strings: standard Base64
/// without padding. Each group of three bytes gives four characters; a last
/// group of one or two bytes gives two or three.
pub open spec fn b64(bytes: Seq<u8>) -> Seq<char>
    decreases bytes.len(),
{
    let a = b64_alphabet();
    if bytes.len() == 0 {
        Seq::empty()
    } else if bytes.len() == 1 {
        let n = bytes[0] as int;
        seq![a[n / 4], a[(n % 4) * 16]]
    } else if bytes.len() == 2 {
        let n = bytes[0] as int * 256 + bytes[1] as int;
        seq![a[n / 1024], a[(n / 16) % 64], a[(n % 16) * 4]]
    } else {
        let n = bytes[0] as int * 65536 + bytes[1] as int * 256 + bytes[2] as int;
        seq![a[n / 262144], a[(n / 4096) % 64], a[(n / 64) % 64], a[n % 64]] + b64(
            bytes.subrange(3, bytes.len() as int),
        )
    }
}

/// B64 gives four characters for every three bytes, rounded up.
pub proof fn lemma_b64_len(bytes: Seq<u8>)
    ensures
        b64(bytes).len() == (4 * bytes.len() + 2) / 3,
    decreases bytes.len(),
{
    if bytes.len() >= 3 {
        lemma_b64_len(bytes.subrange(3, bytes.len() as int));
    }
}

/// A salt that Argon2 takes: the B64 form of 8 to 48 bytes.
pub open spec fn salt_well_formed(salt: Seq<char>) -> bool {
    exists|bytes: Seq<u8>| 8 <= bytes.len() <= 48 && salt == #[trigger] b64(bytes)
}

/// The longest password, in characters, that Argon2 is sure to take: its
/// UTF-8 form is then within Argon2's limit of `0xFFFF_FFFF` bytes.
pub const MAX_PASSWORD_CHARS: usize = 0x3fff_ffffusize;

/// The start of every PHC string `Argon2::default()` writes: algorithm,
/// version and cost parameters.
pub open spec fn phc_prefix() -> Seq<char> {
    "$argon2id$v=19$m=19456,t=2,p=1$"@
}

/// A PHC string of `Argon2::default()` for this salt: the prefix, the salt,
/// and the B64 form of a 32-byte hash, separated by `$`.
pub open spec fn phc_form(phc: Seq<char>, salt: Seq<char>) -> bool {
    exists|digest: Seq<u8>| digest.len() == 32 && phc == phc_prefix() + salt + seq!['$'] + #[trigger] b64(digest)
}

/// `SaltString::encode_b64(bytes)`, read back with `.as_str()`: the B64
/// form of the bytes; it fails only when that form is longer than a salt
/// may be (64 characters, that is more than 48 bytes). Trusted.
#[verifier::external_body]
fn salt_text(bytes: &[u8]) -> (res: Option<String>)
    ensures
        res is Some <==> bytes@.len() <= 48,
        res matches Some(s) ==> s@ == b64(bytes@),
{
    match SaltString::encode_b64(bytes) {
        Ok(salt) => Some(salt.as_str().to_string()),
        Err(_) => None,
    }
}

/// A fresh salt: 16 random bytes in B64, as `SaltString::generate` makes
/// one; `None` when the random source fails.
pub fn new_salt() -> (salt: Option<String>)
    ensures
        salt matches Some(s) ==> {
            &&& s@.len() == 22
            &&& salt_well_formed(s@)
            &&& exists|bytes: Seq<u8>| bytes.len() == 16 && s@ == #[trigger] b64(bytes)
        },
{
    let bytes = match os_random_bytes(16) {
        Some(b) => b,
        None => return None,
    };
    let salt = salt_text(bytes.as_slice());
    proof {
        lemma_b64_len(bytes@);
    }
    salt
}

/// `Argon2::default().hash_password(password, &salt).to_string()`, with the
/// salt text read back by `SaltString::from_b64`. Its outcome is the one
/// named `argon2_phc`. A PHC string that comes back has the form
/// `phc_form`, and `verify_password` accepts the password against it, as
/// the crate documents. It succeeds whenever the salt is the B64 form of 8
/// to 48 bytes and the password is within Argon2's length limit; when it
/// fails otherwise is not claimed. Trusted.
#[verifier::external_body]
fn argon2_hash(password: &str, salt: &str) -> (res: Option<String>)
    ensures
        (salt_well_formed(salt@) && password@.len() <= MAX_PASSWORD_CHARS) ==> res is Some,
        res is None ==> argon2_phc(password@, salt@) is None,
        res matches Some(h) ==> {
            &&& argon2_phc(password@, salt@) == Some(h@)
            &&& phc_form(h@, salt@)
            &&& phc_verifies(password@, h@)
        },
{
    let salt = match SaltString::from_b64(salt) {
        Ok(salt) => salt,
        Err(_) => return None,
    };
    match Argon2::default().hash_password(password.as_bytes(), &salt) {
        Ok(phc) => Some(phc.to_string()),
        Err(_) => None,
    }
}

/// `PasswordHash::new(phc)` followed by
/// `Argon2::default().verify_password(password, &parsed).is_ok()`; a string
/// that does not parse verifies nothing, and one that is empty or does not
/// begin with `$` does not parse. The answer is the one named
/// `phc_verifies`. Trusted.
#[verifier::external_body]
fn argon2_verify(password: &str, phc: &str) -> (res: bool)
    ensures
        res == phc_verifies(password@, phc@),
        (phc@.len() == 0 || phc@[0] != '$') ==> !res,
{
    match PasswordHash::new(phc) {
        Ok(parsed) => Argon2::default().verify_password(password.as_bytes(), &parsed).is_ok(),
        Err(_) => false,
    }
}

/// Hashes a password with the given salt. It fails exactly when Argon2
/// refuses them, which it does not for a well-formed salt and a password
/// within its limit; the error is the message shown to the client.
pub fn hash_password_with_salt(password: &str, salt: &str) -> (res: Result<String, String>)
    ensures
        (salt_well_formed(salt@) && password@.len() <= MAX_PASSWORD_CHARS) ==> res is Ok,
        res is Err ==> argon2_phc(password@, salt@) is None,
        res matches Ok(h) ==> {
            &&& argon2_phc(password@, salt@) == Some(h@)
            &&& phc_form(h@, salt@)
            &&& phc_verifies(password@, h@)
        },
        res matches Err(e) ==> e@ == "Something went wrong"@,
{
    match argon2_hash(password, salt) {
        Some(h) => Ok(h),
        None => Err(String::from_str("Something went wrong")),
    }
}

/// The error `hash_password` gives when no salt can be drawn.
pub open spec fn salt_failure() -> Seq<char> {
    "Failed to hash password"@
}

/// The error `hash_password` gives when Argon2 refuses the password.
pub open spec fn hashing_failure() -> Seq<char> {
    "Something went wrong"@
}

/// What `hash_password` may give for a password: a PHC string of it under
/// a fresh 22-character salt, which the password verifies against;
/// `Failed to hash password` when no salt could be drawn; or `Something
/// went wrong` when Argon2 refused the password with the salt drawn, which
/// happens only to a password beyond its limit.
pub open spec fn hash_outcome(password: Seq<char>, res: Result<String, String>) -> bool {
    match res {
        Ok(h) => {
            &&& phc_verifies(password, h@)
            &&& exists|salt: Seq<char>|
                {
                    &&& salt.len() == 22
                    &&& salt_well_formed(salt)
                    &&& #[trigger] argon2_phc(password, salt) == Some(h@)
                    &&& phc_form(h@, salt)
                }
        },
        Err(e) => e@ == salt_failure() || {
            &&& e@ == hashing_failure()
            &&& password.len() > MAX_PASSWORD_CHARS
            &&& exists|salt: Seq<char>|
                salt.len() == 22 && salt_well_formed(salt) && #[trigger] argon2_phc(password, salt) is None
        },
    }
}

/// Hashes a password with a fresh random salt, giving its PHC string; see
/// `hash_outcome`.
pub fn hash_password(password: &str) -> (res: Result<String, String>)
    ensures
        hash_outcome(password@, res),
{
    match new_salt() {
        Some(salt) => {
            let res = hash_password_with_salt(password, salt.as_str());
            proof {
                if res is Err {
                    assert(argon2_phc(password@, salt@) is None);
                }
            }
            res
        },
        None => Err(String::from_str("Failed to hash password")),
    }
}

/// Checks a password against a stored PHC string; a string that is empty
/// or does not begin with `$` is no PHC string and verifies nothing.
pub fn verify_user_password(password: &str, hash: &str) -> (valid: bool)
    ensures
        valid == phc_verifies(password@, hash@),
        (hash@.len() == 0 || hash@[0] != '$') ==> !valid,
{
    argon2_verify(password, hash)
}

} // verus!
