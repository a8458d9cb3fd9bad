//! Account registration.

use vstd::prelude::*;
use crate::model::{Notice, RegisterUserDto, Reply, Status};
use crate::password::{argon2_phc, hash_outcome, hash_password, hashing_failure, phc_form, phc_verifies, salt_failure, MAX_PASSWORD_CHARS};
use crate::text::same_text;
use crate::text::{uuid_text, uuid_text_of};

verus! {

/// The lowercase form of a text, as `str::to_lowercase` gives it (the
/// Unicode lowercase mapping of each character).
pub uninterp spec fn lowercase(s: Seq<char>) -> Seq<char>;

/// `str::to_lowercase`. Trusted.
#[verifier::external_body]
fn to_lowercase(s: &str) -> (res: String)
    ensures
        res@ == lowercase(s@),
{
    s.to_lowercase()
}

/// The form in which an email address is stored and looked up, so that
/// addresses that differ only in case name the same account.
pub fn email_key(email: &str) -> (key: String)
    ensures
        key@ == lowercase(email@),
{
    to_lowercase(email)
}

/// The registration ready for storage, given what hashing its password
/// gave: the password replaced by the PHC string; `500 Something went
/// wrong` when Argon2 refused the password; `500 Failed to hash password`
/// for any other failure.
pub open spec fn registration_result(dto: RegisterUserDto, hashed: Result<String, String>) -> Result<
    RegisterUserDto,
    Reply,
> {
    match hashed {
        Ok(h) => Ok(
            RegisterUserDto {
                email: dto.email,
                password: h,
                first_name: dto.first_name,
                last_name: dto.last_name,
            },
        ),
        Err(e) => {
            if e@ == hashing_failure() {
                Err(Reply::Error(Status::InternalServerError, Notice::HashingFailed))
            } else {
                Err(Reply::Error(Status::InternalServerError, Notice::PasswordHashFailed))
            }
        },
    }
}

/// Readies a registration for storage given what hashing its password
/// gave; see `registration_result`.
pub fn registration_from_hash(dto: RegisterUserDto, hashed: Result<String, String>) -> (res: Result<
    RegisterUserDto,
    Reply,
>)
    ensures
        res == registration_result(dto, hashed),
{
    match hashed {
        Ok(hash) => Ok(
            RegisterUserDto {
                email: dto.email,
                password: hash,
                first_name: dto.first_name,
                last_name: dto.last_name,
            },
        ),
        Err(e) => {
            if same_text(e.as_str(), "Something went wrong") {
                Err(Reply::Error(Status::InternalServerError, Notice::HashingFailed))
            } else {
                Err(Reply::Error(Status::InternalServerError, Notice::PasswordHashFailed))
            }
        },
    }
}

/// Readies a registration for storage: the password is hashed with
/// `hash_password` and the outcome turned into the registration or the
/// reply by `registration_result`. So the stored password is an Argon2 PHC
/// string that the password verifies against; an Argon2 refusal (only of a
/// password beyond its length limit) is `500 Something went wrong`, and a
/// failure of the random source `500 Failed to hash password`.
pub fn prepare_registration(dto: RegisterUserDto) -> (res: Result<RegisterUserDto, Reply>)
    ensures
        exists|hashed: Result<String, String>|
            hash_outcome(dto.password@, hashed) && res == #[trigger] registration_result(dto, hashed),
        res matches Ok(d) ==> {
            &&& d.email == dto.email
            &&& d.first_name == dto.first_name
            &&& d.last_name == dto.last_name
            &&& phc_verifies(dto.password@, d.password@)
            &&& exists|salt: Seq<char>|
                {
                    &&& salt.len() == 22
                    &&& #[trigger] argon2_phc(dto.password@, salt) == Some(d.password@)
                    &&& phc_form(d.password@, salt)
                }
        },
        res matches Err(r) ==> r == Reply::Error(Status::InternalServerError, Notice::PasswordHashFailed)
            || (r == Reply::Error(Status::InternalServerError, Notice::HashingFailed) && dto.password@.len()
            > MAX_PASSWORD_CHARS),
{
    let ghost original = dto;
    let hashed = hash_password(dto.password.as_str());
    let ghost h = hashed;
    let res = registration_from_hash(dto, hashed);
    proof {
        reveal_strlit("Something went wrong");
        reveal_strlit("Failed to hash password");
        assert("Something went wrong"@.len() == 20);
        assert("Failed to hash password"@.len() == 23);
        assert(salt_failure() != hashing_failure());
        assert(hash_outcome(original.password@, h) && res == registration_result(original, h));
    }
    res
}

/// The reply to a registration, given the new account's id or `None` when
/// storing it failed: `201` with the hyphenated UUID, or `500 Failed to
/// create user, Please try again`.
pub fn registration_reply(created: Option<u128>) -> (reply: Reply)
    ensures
        created matches Some(id) ==> (reply matches Reply::Created(body) && body@ == uuid_text_of(id)),
        created is None ==> reply == Reply::Error(Status::InternalServerError, Notice::CreateUserFailed),
{
    match created {
        Some(id) => Reply::Created(uuid_text(id)),
        None => Reply::Error(Status::InternalServerError, Notice::CreateUserFailed),
    }
}

} // verus!
