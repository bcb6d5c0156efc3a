//! Password hashing with Argon2id and verification against a stored hash.
//!
//! The hashing itself is the work of the `argon2` crate. This module decides
//! which passwords are taken, hands the accepted ones over, and says what a
//! caller may rely on afterwards.

use argon2::password_hash::rand_core::OsRng;
use argon2::password_hash::{PasswordHash, PasswordHasher, PasswordVerifier, Salt, SaltString};
use argon2::Argon2;
use vstd::prelude::*;

use crate::error::ErrorMessage;
use crate::text::{byte_len, lemma_chars_at_most_bytes, utf8_len};

verus! {

/// The longest password, in bytes, that is hashed or compared.
pub const MAX_PASSWORD_LENGTH: usize = 64;

/// What `Argon2::default().hash_password` makes of the bytes of `password`
/// with the salt that `Salt::from_b64` reads from `salt`, written out in the
/// PHC format; `None` where the salt is refused or the hasher fails.
pub uninterp spec fn argon2_hashing(password: Seq<char>, salt: Seq<char>) -> Option<Seq<char>>;

/// Whether `PasswordHash::new` takes `hashed` as a string in the PHC format.
pub uninterp spec fn phc_parses(hashed: Seq<char>) -> bool;

/// What `Argon2::default().verify_password` answers for the bytes of
/// `password` and the parsed form of `hashed`: `Some(true)` where it
/// accepts, `Some(false)` where it reports that the password is not the
/// one, and `None` where it reports another error. It has a meaning only
/// where `phc_parses(hashed)`.
pub uninterp spec fn argon2_verifying(password: Seq<char>, hashed: Seq<char>) -> Option<bool>;

/// Whether the verifier accepts `password` for `hashed`.
pub open spec fn argon2_accepts(password: Seq<char>, hashed: Seq<char>) -> bool {
    argon2_verifying(password, hashed) == Some(true)
}

/// Whether the verifier gives an answer, accepting or not, on every
/// password that Argon2 takes, when it is held against `hashed`.
pub open spec fn verifies_every_password(hashed: Seq<char>) -> bool {
    forall|password: Seq<char>|
        byte_len(password) <= ARGON2_MAX_PASSWORD ==> (#[trigger] argon2_verifying(
            password,
            hashed,
        )) is Some
}

/// What holding a password against a stored hash came to.
#[derive(Debug, Clone, Copy, PartialEq, Eq)]
pub enum Checked {
    /// The stored hash is no string in the PHC format.
    Unparsed,
    /// The password is the one.
    Accepted,
    /// The password is not the one.
    Rejected,
    /// The verifier failed: the stored hash names an algorithm, a version
    /// or costs that it does not take.
    Failed,
}


/// The longest password, in bytes, that Argon2 takes.
pub const ARGON2_MAX_PASSWORD: u64 = 0xFFFF_FFFF;

/// The characters in which the digest of 32 bytes is written.
pub const DIGEST_CHARS: usize = 43;

/// What every hash starts with: the algorithm, its version and the default
/// costs of memory, time and lanes.
pub open spec fn phc_head() -> Seq<char> {
    "$argon2id$v=19$m=19456,t=2,p=1$"@
}

/// Whether `hashed` is a hash of this module made with `salt`: the head,
/// the salt, a `$`, and the digest.
pub open spec fn is_argon2id_phc(hashed: Seq<char>, salt: Seq<char>) -> bool {
    (phc_head() + salt + "$"@).is_prefix_of(hashed) && hashed.len() == phc_head().len()
        + salt.len() + 1 + DIGEST_CHARS
}

/// What holds of the hash `hashed` that Argon2 made for `password` with
/// `salt`: it has the form of this module's hashes, it parses, the verifier
/// accepts it for `password`, and the verifier gives an answer on every
/// other password too.
pub open spec fn sound_hash(password: Seq<char>, salt: Seq<char>, hashed: Seq<char>) -> bool {
    is_argon2id_phc(hashed, salt) && phc_parses(hashed) && argon2_accepts(password, hashed)
        && verifies_every_password(hashed)
}

/// Whether Argon2 hashes every password that it takes with `salt`.
pub open spec fn hashes_every_password(salt: Seq<char>) -> bool {
    forall|password: Seq<char>|
        byte_len(password) <= ARGON2_MAX_PASSWORD ==> (#[trigger] argon2_hashing(
            password,
            salt,
        )) is Some
}

/// Whether `password` has a length that is hashed and compared: from one
/// byte to `MAX_PASSWORD_LENGTH` bytes.
pub open spec fn acceptable_length(password: Seq<char>) -> bool {
    1 <= byte_len(password) <= MAX_PASSWORD_LENGTH
}

/// The error for the length of `password`, where it has one: a password
/// without a byte is empty, and one of more than `MAX_PASSWORD_LENGTH` bytes
/// is too long.
pub open spec fn length_error(password: Seq<char>) -> Option<ErrorMessage> {
    if password.len() == 0 {
        Some(ErrorMessage::EmptyPassword)
    } else if byte_len(password) > MAX_PASSWORD_LENGTH {
        Some(ErrorMessage::ExceededMaxPasswordLength(MAX_PASSWORD_LENGTH))
    } else {
        None
    }
}

/// What hashing `password` with `salt` answers: the length errors for a
/// password that is empty or longer than `MAX_PASSWORD_LENGTH` bytes, else
/// what Argon2 made of the two, or `HashingError` where it made nothing.
pub open spec fn hash_with(password: Seq<char>, salt: Seq<char>) -> Result<
    Seq<char>,
    ErrorMessage,
> {
    if password.len() == 0 {
        Err(ErrorMessage::EmptyPassword)
    } else if byte_len(password) > MAX_PASSWORD_LENGTH {
        Err(ErrorMessage::ExceededMaxPasswordLength(MAX_PASSWORD_LENGTH))
    } else {
        match argon2_hashing(password, salt) {
            Some(hashed) => Ok(hashed),
            None => Err(ErrorMessage::HashingError),
        }
    }
}

/// What `hash_password` may return for `password`.
///
/// The length errors are fixed by the password alone. A password of
/// acceptable length is hashed: the result is what Argon2 made of it with
/// some salt, a string of this module's form that the verifier accepts for
/// the password and that is not the password.
pub open spec fn hash_outcome(password: Seq<char>, r: Result<Seq<char>, ErrorMessage>) -> bool {
    if password.len() == 0 {
        r == Err::<Seq<char>, ErrorMessage>(ErrorMessage::EmptyPassword)
    } else if byte_len(password) > MAX_PASSWORD_LENGTH {
        r == Err::<Seq<char>, ErrorMessage>(
            ErrorMessage::ExceededMaxPasswordLength(MAX_PASSWORD_LENGTH),
        )
    } else {
        r matches Ok(hashed) && hashed != password && exists|salt: Seq<char>|
            #[trigger] argon2_hashing(password, salt) == Some(hashed) && sound_hash(
                password,
                salt,
                hashed,
            )
    }
}

/// A hashing result as plain values.
pub open spec fn hashed_view(r: Result<String, ErrorMessage>) -> Result<Seq<char>, ErrorMessage> {
    match r {
        Ok(hashed) => Ok(hashed@),
        Err(e) => Err(e),
    }
}

/// What `compare` returns for `password` and the stored `hashed`: the
/// errors of malformed input in their order, then the verifier's answer, or
/// `HashingError` where the verifier failed.
pub open spec fn compare_result(password: Seq<char>, hashed: Seq<char>) -> Result<
    bool,
    ErrorMessage,
> {
    if password.len() == 0 || hashed.len() == 0 {
        Err(ErrorMessage::EmptyPassword)
    } else if byte_len(password) > MAX_PASSWORD_LENGTH {
        Err(ErrorMessage::ExceededMaxPasswordLength(MAX_PASSWORD_LENGTH))
    } else if !phc_parses(hashed) {
        Err(ErrorMessage::InvalidHashFormat)
    } else {
        match argon2_verifying(password, hashed) {
            Some(matches) => Ok(matches),
            None => Err(ErrorMessage::HashingError),
        }
    }
}

/// Calls `SaltString::generate` on `OsRng` and hands the salt out as text:
/// sixteen bytes from the operating system's random source, in B64.
///
/// The value is random. Claimed of every outcome: Argon2 hashes with it
/// whatever password it takes, since the salt reads back as sixteen bytes,
/// which is within the hasher's limits, as the default output and costs
/// are.
#[verifier::external_body]
fn fresh_salt() -> (salt: String)
    ensures
        hashes_every_password(salt@),
{
    SaltString::generate(&mut OsRng).as_str().to_owned()
}

/// Calls `Salt::from_b64` on `salt` and `hash_password` of
/// `Argon2::default()` on the bytes of `password` with it, and writes the
/// hash out in the PHC format.
///
/// The result is named. Claimed of a hash: it is the head, the salt, a `$`
/// and the digest of 32 bytes in 43 characters; `PasswordHash::new` parses
/// it; `verify_password` accepts it for the same password, since that
/// recomputes the hash from the algorithm, version, parameters and salt that
/// the string holds; and on any other password that Argon2 takes the
/// verifier recomputes likewise and answers, accepting or not.
#[verifier::external_body]
fn argon2_hash(password: &str, salt: &str) -> (r: Option<String>)
    ensures
        match r {
            Some(hashed) => argon2_hashing(password@, salt@) == Some(hashed@) && sound_hash(
                password@,
                salt@,
                hashed@,
            ),
            None => argon2_hashing(password@, salt@).is_none(),
        },
{
    match Salt::from_b64(salt) {
        Ok(salt) => match Argon2::default().hash_password(password.as_bytes(), salt) {
            Ok(hash) => Some(hash.to_string()),
            Err(_) => None,
        },
        Err(_) => None,
    }
}

/// Calls `PasswordHash::new` on `hashed` and, where that parses,
/// `verify_password` of `Argon2::default()` on the bytes of `password`.
///
/// The outcome is named, not described. Of the verifier's errors the
/// variant `Password` is the mismatch; every other one is a failure.
#[verifier::external_body]
fn argon2_check(password: &str, hashed: &str) -> (r: Checked)
    ensures
        r == if !phc_parses(hashed@) {
            Checked::Unparsed
        } else {
            match argon2_verifying(password@, hashed@) {
                Some(true) => Checked::Accepted,
                Some(false) => Checked::Rejected,
                None => Checked::Failed,
            }
        },
{
    match PasswordHash::new(hashed) {
        Ok(parsed) => match Argon2::default().verify_password(password.as_bytes(), &parsed) {
            Ok(_) => Checked::Accepted,
            Err(argon2::password_hash::Error::Password) => Checked::Rejected,
            Err(_) => Checked::Failed,
        },
        Err(_) => Checked::Unparsed,
    }
}

/// What hashing answers, given what the hasher returned: the hash, or
/// `HashingError` where it made none.
pub fn hashed_or_error(hashed: Option<String>) -> (r: Result<String, ErrorMessage>)
    ensures
        match hashed {
            Some(h) => r == Ok::<String, ErrorMessage>(h),
            None => r == Err::<String, ErrorMessage>(ErrorMessage::HashingError),
        },
{
    match hashed {
        Some(h) => Ok(h),
        None => Err(ErrorMessage::HashingError),
    }
}

/// What comparing answers, given what holding the password against the
/// stored hash came to: `Ok` of whether the password is the one,
/// `InvalidHashFormat` where the stored hash did not parse, and
/// `HashingError` where the verifier failed.
pub fn compared_or_error(checked: Checked) -> (r: Result<bool, ErrorMessage>)
    ensures
        r == match checked {
            Checked::Accepted => Ok::<bool, ErrorMessage>(true),
            Checked::Rejected => Ok::<bool, ErrorMessage>(false),
            Checked::Unparsed => Err::<bool, ErrorMessage>(ErrorMessage::InvalidHashFormat),
            Checked::Failed => Err::<bool, ErrorMessage>(ErrorMessage::HashingError),
        },
{
    match checked {
        Checked::Accepted => Ok(true),
        Checked::Rejected => Ok(false),
        Checked::Unparsed => Err(ErrorMessage::InvalidHashFormat),
        Checked::Failed => Err(ErrorMessage::HashingError),
    }
}

/// A hash of this module is longer than any password that is hashed, so
/// that it is never the password.
pub proof fn lemma_hash_is_longer(password: Seq<char>, salt: Seq<char>, hashed: Seq<char>)
    requires
        byte_len(password) <= MAX_PASSWORD_LENGTH,
        is_argon2id_phc(hashed, salt),
    ensures
        hashed.len() > MAX_PASSWORD_LENGTH,
        hashed.len() > password.len(),
        hashed != password,
{
    reveal_strlit("$argon2id$v=19$m=19456,t=2,p=1$");
    lemma_chars_at_most_bytes(password);
}

/// Hashes a plaintext password with the salt `salt`, in B64.
///
/// An empty password and one of more than `MAX_PASSWORD_LENGTH` bytes are
/// refused with the matching error, and the hasher is not called. Otherwise
/// the result is the hasher's: its hash, which `compare` accepts for
/// `password`, or `HashingError` where it makes none, as for a salt that it
/// refuses.
pub fn hash_with_salt(password: &str, salt: &str) -> (r: Result<String, ErrorMessage>)
    ensures
        hashed_view(r) == hash_with(password@, salt@),
        r matches Ok(hashed) ==> sound_hash(password@, salt@, hashed@) && hashed@ != password@,
{
    if password.is_empty() {
        return Err(ErrorMessage::EmptyPassword);
    }
    if utf8_len(password) > MAX_PASSWORD_LENGTH {
        return Err(ErrorMessage::ExceededMaxPasswordLength(MAX_PASSWORD_LENGTH));
    }
    let r = hashed_or_error(argon2_hash(password, salt));
    proof {
        if r is Ok {
            lemma_hash_is_longer(password@, salt@, r->Ok_0@);
        }
    }
    r
}

/// Hashes a plaintext password with a fresh random salt.
///
/// An empty password and one of more than `MAX_PASSWORD_LENGTH` bytes are
/// refused with the matching error, and no salt is drawn. Every other
/// password is hashed: the result is `Ok` of what `hash_with_salt` gives
/// with the salt that was drawn.
pub fn hash_password(password: &str) -> (r: Result<String, ErrorMessage>)
    ensures
        hash_outcome(password@, hashed_view(r)),
        acceptable_length(password@) <==> r is Ok,
{
    if password.is_empty() {
        return Err(ErrorMessage::EmptyPassword);
    }
    if utf8_len(password) > MAX_PASSWORD_LENGTH {
        return Err(ErrorMessage::ExceededMaxPasswordLength(MAX_PASSWORD_LENGTH));
    }
    let salt = fresh_salt();
    assert(argon2_hashing(password@, salt@) is Some);
    hash_with_salt(password, salt.as_str())
}

/// Compares a plaintext password with a stored hash.
///
/// `Ok(true)` and `Ok(false)` are the verifier's answer; a mismatch is no
/// error. The errors are those of malformed input, in this order: an empty
/// password or hash, a password that is too long, a hash that does not
/// parse; and `HashingError` where the verifier itself fails.
pub fn compare(password: &str, hashed_password: &str) -> (r: Result<bool, ErrorMessage>)
    ensures
        r == compare_result(password@, hashed_password@),
{
    if password.is_empty() || hashed_password.is_empty() {
        return Err(ErrorMessage::EmptyPassword);
    }
    if utf8_len(password) > MAX_PASSWORD_LENGTH {
        return Err(ErrorMessage::ExceededMaxPasswordLength(MAX_PASSWORD_LENGTH));
    }
    compared_or_error(argon2_check(password, hashed_password))
}

/// A password of acceptable length is never answered with a length error,
/// and an unacceptable one always is, by hashing and by comparing alike.
pub proof fn lemma_length_errors(
    password: Seq<char>,
    hashed: Seq<char>,
    r: Result<Seq<char>, ErrorMessage>,
)
    requires
        hash_outcome(password, r),
    ensures
        password.len() == 0 ==> r == Err::<Seq<char>, ErrorMessage>(ErrorMessage::EmptyPassword)
            && compare_result(password, hashed) == Err::<bool, ErrorMessage>(
            ErrorMessage::EmptyPassword,
        ),
        byte_len(password) > MAX_PASSWORD_LENGTH ==> r == Err::<Seq<char>, ErrorMessage>(
            ErrorMessage::ExceededMaxPasswordLength(MAX_PASSWORD_LENGTH),
        ),
        byte_len(password) > MAX_PASSWORD_LENGTH && hashed.len() > 0 ==> compare_result(
            password,
            hashed,
        ) == Err::<bool, ErrorMessage>(
            ErrorMessage::ExceededMaxPasswordLength(MAX_PASSWORD_LENGTH),
        ),
        acceptable_length(password) ==> r != Err::<Seq<char>, ErrorMessage>(
            ErrorMessage::EmptyPassword,
        ) && r != Err::<Seq<char>, ErrorMessage>(
            ErrorMessage::ExceededMaxPasswordLength(MAX_PASSWORD_LENGTH),
        ),
        acceptable_length(password) && hashed.len() > 0 ==> compare_result(password, hashed)
            != Err::<bool, ErrorMessage>(ErrorMessage::EmptyPassword) && compare_result(
            password,
            hashed,
        ) != Err::<bool, ErrorMessage>(
            ErrorMessage::ExceededMaxPasswordLength(MAX_PASSWORD_LENGTH),
        ),
{
}

/// Whatever `hash_password` returned as the hash of a password of
/// acceptable length, `compare` answers `Ok(true)` for that password and
/// that hash.
pub proof fn lemma_hash_then_compare(password: Seq<char>, hashed: Seq<char>)
    requires
        acceptable_length(password),
        hash_outcome(password, Ok(hashed)),
    ensures
        compare_result(password, hashed) == Ok::<bool, ErrorMessage>(true),
{
}

/// Two hashes that `hash_password` returned for one password, equal or not,
/// are both accepted for it.
pub proof fn lemma_every_hash_compares(password: Seq<char>, first: Seq<char>, second: Seq<char>)
    requires
        acceptable_length(password),
        hash_outcome(password, Ok(first)),
        hash_outcome(password, Ok(second)),
    ensures
        compare_result(password, first) == Ok::<bool, ErrorMessage>(true),
        compare_result(password, second) == Ok::<bool, ErrorMessage>(true),
{
}

/// Comparing another password of acceptable length with a hash made for
/// `password` is no error: the answer is `Ok`, and it is `Ok(false)` unless
/// Argon2 itself accepts the other password for that hash.
pub proof fn lemma_other_password(password: Seq<char>, other: Seq<char>, hashed: Seq<char>)
    requires
        acceptable_length(password),
        acceptable_length(other),
        other != password,
        hash_outcome(password, Ok(hashed)),
    ensures
        compare_result(other, hashed) == Ok::<bool, ErrorMessage>(
            argon2_accepts(other, hashed),
        ),
        !argon2_accepts(other, hashed) ==> compare_result(other, hashed) == Ok::<
            bool,
            ErrorMessage,
        >(false),
{
}

/// A password of acceptable length is always hashed: `hash_password` does
/// not fail on it.
pub proof fn lemma_acceptable_is_hashed(password: Seq<char>, r: Result<Seq<char>, ErrorMessage>)
    requires
        hash_outcome(password, r),
    ensures
        acceptable_length(password) <==> r is Ok,
{
}

/// A hash that `hash_password` returned names its algorithm, holds a salt
/// and a digest, parses, and is not the password.
pub proof fn lemma_hash_is_self_contained(password: Seq<char>, hashed: Seq<char>)
    requires
        hash_outcome(password, Ok(hashed)),
    ensures
        phc_head().is_prefix_of(hashed),
        "$argon2"@.is_prefix_of(hashed),
        exists|salt: Seq<char>, digest: Seq<char>|
            digest.len() == DIGEST_CHARS && hashed == phc_head() + salt + "$"@ + digest,
        phc_parses(hashed),
        hashed != password,
        hashed.len() > MAX_PASSWORD_LENGTH,
{
    reveal_strlit("$argon2id$v=19$m=19456,t=2,p=1$");
    reveal_strlit("$argon2");
    reveal_strlit("$");
    let salt = choose|salt: Seq<char>|
        #[trigger] argon2_hashing(password, salt) == Some(hashed) && sound_hash(
            password,
            salt,
            hashed,
        );
    let front = phc_head() + salt + "$"@;
    let digest = hashed.skip(front.len() as int);
    assert(front =~= hashed.subrange(0, front.len() as int));
    assert(hashed =~= phc_head() + salt + "$"@ + digest);
    assert(phc_head() =~= hashed.subrange(0, phc_head().len() as int));
    assert("$argon2"@ =~= hashed.subrange(0, 7));
}

} // verus!
