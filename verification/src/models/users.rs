use vstd::prelude::*;

use argon2::password_hash::rand_core::OsRng;
use argon2::password_hash::{PasswordHasher, Salt, SaltString};
use argon2::Argon2;

use crate::errors::{AppError, status_of};

verus! {

/// What a user may do on the site.
#[derive(Clone, Copy, Debug, PartialEq, Eq, Structural)]
pub enum Role {
    User,
    Admin,
}

/// A user as the database stores it.
#[derive(Debug, Clone)]
pub struct User {
    pub id: i32,
    pub email: String,
    pub username: String,
    /// The PHC string of the password's Argon2 hash.
    pub password: String,
    pub role: Role,
    /// Raised to revoke every refresh token issued before.
    pub token_version: i32,
}

/// A user about to be written to the database: the password is already hashed.
#[derive(Debug)]
pub struct NewUser {
    pub email: String,
    pub username: String,
    /// The PHC string of the password's Argon2 hash.
    pub password: String,
    pub role: Role,
}

/// How a user is looked up.
#[derive(Debug, Clone, Copy)]
pub enum UserKey<'a> {
    Email(&'a str),
    ID(i32),
}

/// The database lookup that finds a user by a key.
#[derive(Debug)]
pub enum UserQuery {
    /// The user whose e-mail address equals the text.
    ByEmail(String),
    /// The user with this id.
    ById(i32),
}

/// The lookup to run for `key`.
pub fn user_query(key: UserKey) -> (q: UserQuery)
    ensures
        key matches UserKey::Email(email) ==> (q matches UserQuery::ByEmail(e) && e@ == email@),
        key matches UserKey::ID(id) ==> q == UserQuery::ById(id),
{
    match key {
        UserKey::Email(email) => UserQuery::ByEmail(String::from_str(email)),
        UserKey::ID(id) => UserQuery::ById(id),
    }
}

/// The user that a lookup found, or `RecordNotFound` when it found none.
pub fn found_user(found: Option<User>) -> (r: Result<User, AppError>)
    ensures
        found matches Some(u) ==> (r matches Ok(v) && v == u),
        found is None ==> r matches Err(AppError::RecordNotFound),
{
    match found {
        Some(u) => Ok(u),
        None => Err(AppError::RecordNotFound),
    }
}

/// A lookup that finds no user is answered `404 Not Found`.
pub proof fn lemma_missing_user_is_not_found()
    ensures
        status_of(AppError::RecordNotFound) == 404,
{
}

// ---------------------------------------------------------------------------
// Password hashing
// ---------------------------------------------------------------------------

/// A character of the standard Base64 alphabet.
pub open spec fn is_b64_char(c: char) -> bool {
    ||| ('A' as int) <= (c as int) <= ('Z' as int)
    ||| ('a' as int) <= (c as int) <= ('z' as int)
    ||| ('0' as int) <= (c as int) <= ('9' as int)
    ||| c == '+'
    ||| c == '/'
}

/// A salt as generation makes it: sixteen random bytes in canonical unpadded
/// Base64, that is 22 Base64 characters, the last of which carries two bits of
/// data and four zero bits (so it is one of `A`, `Q`, `g`, `w`).
pub open spec fn is_generated_salt(salt: Seq<char>) -> bool {
    &&& salt.len() == 22
    &&& forall|i: int| 0 <= i < salt.len() ==> is_b64_char(#[trigger] salt[i])
    &&& (salt[21] == 'A' || salt[21] == 'Q' || salt[21] == 'g' || salt[21] == 'w')
}

/// A password short enough for Argon2 whatever its characters: under 2^30
/// characters, so its UTF-8 bytes stay below Argon2's limit of 2^32 - 1.
pub open spec fn is_hashable_password(password: Seq<char>) -> bool {
    password.len() < 0x4000_0000
}

/// A fresh random salt: `SaltString::generate` of `password-hash`, drawing
/// sixteen bytes from the operating system's generator (`OsRng`) and encoding
/// them in canonical unpadded Base64. The contract states the shape of every outcome;
/// which salt comes out is left unsaid, as it rests on chance.
#[verifier::external_body]
fn generate_salt() -> (salt: String)
    ensures
        is_generated_salt(salt@),
{
    SaltString::generate(&mut OsRng).as_str().to_string()
}

/// How a PHC string of `Argon2::default()` begins: algorithm Argon2id,
/// version 19 and the default costs (19456 KiB of memory, 2 passes, 1 lane).
pub open spec fn argon2_phc_prefix() -> Seq<char> {
    "$argon2id$v=19$m=19456,t=2,p=1$"@
}

/// `h` is a PHC string of `Argon2::default()` under `salt`: the prefix, the
/// salt, a `$`, then a non-empty digest.
pub open spec fn is_default_argon2_phc(h: Seq<char>, salt: Seq<char>) -> bool {
    let head = argon2_phc_prefix() + salt + "$"@;
    &&& h.len() > head.len()
    &&& h.subrange(0, head.len() as int) == head
}

/// What is stored in place of a password is never the password itself, unless
/// the password already reads like an Argon2 PHC string: a PHC string under any
/// salt begins with `argon2_phc_prefix()`, so it differs from every password
/// that does not.
pub proof fn lemma_stored_hash_is_not_the_password(
    h: Seq<char>,
    salt: Seq<char>,
    password: Seq<char>,
)
    requires
        is_default_argon2_phc(h, salt),
        !(password.len() >= argon2_phc_prefix().len() && password.subrange(
            0,
            argon2_phc_prefix().len() as int,
        ) == argon2_phc_prefix()),
    ensures
        h != password,
{
    let head = argon2_phc_prefix() + salt + "$"@;
    if h == password {
        assert(password.subrange(0, argon2_phc_prefix().len() as int) =~= head.subrange(
            0,
            argon2_phc_prefix().len() as int,
        ));
        assert(head.subrange(0, argon2_phc_prefix().len() as int) =~= argon2_phc_prefix());
    }
}

/// The PHC string that `Argon2::default().hash_password` makes of a password
/// and a Base64 salt, or `None` where it (or the reading of the salt) fails.
pub uninterp spec fn argon2_hash(password: Seq<char>, salt: Seq<char>) -> Option<Seq<char>>;

/// Hashes `password` (its UTF-8 bytes) with Argon2 in its default parameters
/// and the salt given as Base64 text: `Salt::from_b64` reads the salt, then
/// `PasswordHasher::hash_password` of `argon2` hashes, and the hash is written
/// as its PHC string. The contract names the result `argon2_hash` of the two
/// arguments; of the hash it states only the shape of the PHC string, which
/// `PasswordHash`'s `Display` writes as `$argon2id$v=19$m=19456,t=2,p=1$`, the
/// salt as given, `$` and the digest. It succeeds on a salt of the generated
/// shape and a password under 2^30 characters: `Salt::from_b64` accepts 22
/// Base64 characters, canonical Base64 of 16 bytes decodes, Argon2's input checks
/// (`verify_inputs`) refuse only salts under 8 bytes and passwords over 2^32 - 1
/// bytes, and the default output (32 bytes) and parameters pass the remaining
/// checks.
#[verifier::external_body]
fn hash_password(password: &str, salt: &str) -> (r: Result<String, argon2::password_hash::Error>)
    ensures
        is_generated_salt(salt@) && is_hashable_password(password@) ==> r is Ok,
        r matches Ok(h) ==> argon2_hash(password@, salt@) == Some(h@),
        r matches Ok(h) ==> is_default_argon2_phc(h@, salt@),
        r is Err ==> argon2_hash(password@, salt@) is None,
{
    let salt = Salt::from_b64(salt)?;
    Ok(Argon2::default().hash_password(password.as_bytes(), salt)?.to_string())
}

/// The record of a new user, given the outcome of hashing the password:
/// a hash is stored in place of the password, a failure becomes `HashingError`.
pub fn user_record(
    email: String,
    username: String,
    role: Role,
    hashed: Result<String, argon2::password_hash::Error>,
) -> (r: Result<NewUser, AppError>)
    ensures
        hashed matches Ok(h) ==> (r matches Ok(u) && u.email@ == email@ && u.username@
            == username@ && u.password@ == h@ && u.role == role),
        hashed matches Err(e) ==> r == Err::<NewUser, AppError>(AppError::HashingError(e)),
{
    match hashed {
        Ok(h) => Ok(NewUser { email, username, password: h, role }),
        Err(e) => Err(AppError::from(e)),
    }
}

/// The record of a new user: the password is hashed with Argon2 under a fresh
/// random salt, and only the hash is kept. For the salt drawn, the outcome is
/// the outcome of Argon2: its hash is stored, or its failure is reported.
/// A password under 2^30 characters is always hashed and stored.
pub fn new_user(email: String, username: String, password: &str, role: Role) -> (r: Result<
    NewUser,
    AppError,
>)
    ensures
        is_hashable_password(password@) ==> r is Ok,
        exists|salt: Seq<char>|
            #![trigger argon2_hash(password@, salt)]
            is_generated_salt(salt) && match argon2_hash(password@, salt) {
                Some(h) => r matches Ok(u) && {
                    &&& u.email@ == email@
                    &&& u.username@ == username@
                    &&& u.role == role
                    &&& u.password@ == h
                    &&& is_default_argon2_phc(h, salt)
                },
                None => r matches Err(e) && e is HashingError,
            },
{
    let salt = generate_salt();
    let hashed = hash_password(password, salt.as_str());
    user_record(email, username, role, hashed)
}

} // verus!
