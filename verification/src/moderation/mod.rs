//! Moderators: their passphrases, the administrator's credentials, and
//! the suspension of users.

use vstd::prelude::*;

pub mod passwords;
pub mod suspension;

use passwords::{argon2_accepts, argon2_hash, argon2_phc, argon2_verify, is_sixteen_byte_b64, random_salt};

verus! {

/// Why a passphrase could not be hashed or checked.
#[derive(Debug, PartialEq, Eq, Structural)]
pub enum ModerationError {
    /// Argon2 could not hash the passphrase.
    HashFailed,
    /// The stored hash is not a PHC string that Argon2 can read.
    MalformedStoredHash,
}

impl ModerationError {
    /// The message the board reports for this error.
    pub fn message(&self) -> (r: &'static str)
        ensures
            r@ == "Argon couldn't hash passphrase"@,
    {
        "Argon couldn't hash passphrase"
    }
}

/// Hashes a passphrase with the B64-encoded `salt`: the Argon2 PHC
/// string, or `HashFailed` where the salt does not decode or hashing
/// fails. The hash it gives is one that `check_passphrase` accepts for
/// the same passphrase.
pub fn hash_passphrase_with_salt(passphrase: &[u8], salt: &str) -> (r: Result<String, ModerationError>)
    ensures
        match r {
            Ok(h) => argon2_phc(passphrase@, salt@) == Some(h@),
            Err(e) => argon2_phc(passphrase@, salt@) is None && e == ModerationError::HashFailed,
        },
        r matches Ok(h) ==> check_passphrase_spec(Some(h@), passphrase@) == Ok::<bool, ModerationError>(true),
        passphrase@.len() > u32::MAX ==> r is Err,
        is_sixteen_byte_b64(salt@) && passphrase@.len() <= u32::MAX ==> r is Ok,
{
    match argon2_hash(passphrase, salt) {
        Some(h) => Ok(h),
        None => Err(ModerationError::HashFailed),
    }
}

/// Hashes a new moderator's passphrase with a fresh random salt: the PHC
/// string for some sixteen-byte salt, which `check_passphrase` accepts for
/// the same passphrase. It fails only for a passphrase longer than
/// `u32::MAX` bytes.
pub fn hash_passphrase(passphrase: &[u8]) -> (r: Result<String, ModerationError>)
    ensures
        r is Ok <==> passphrase@.len() <= u32::MAX,
        exists|salt: Seq<char>|
            is_sixteen_byte_b64(salt) && match r {
                Ok(h) => argon2_phc(passphrase@, salt) == Some(h@),
                Err(_) => argon2_phc(passphrase@, salt) is None,
            },
        r matches Ok(h) ==> check_passphrase_spec(Some(h@), passphrase@) == Ok::<bool, ModerationError>(true),
        r matches Err(e) ==> e == ModerationError::HashFailed,
{
    let salt = random_salt();
    hash_passphrase_with_salt(passphrase, salt.as_str())
}

/// What checking `passphrase` against the stored hash gives: no hash
/// stored (an unknown moderator or token) is a refusal, a stored hash
/// that does not parse an error.
pub open spec fn check_passphrase_spec(stored: Option<Seq<char>>, passphrase: Seq<u8>) -> Result<
    bool,
    ModerationError,
> {
    match stored {
        None => Ok(false),
        Some(h) => match argon2_accepts(h, passphrase) {
            Some(b) => Ok(b),
            None => Err(ModerationError::MalformedStoredHash),
        },
    }
}

/// Checks `passphrase` against the stored hash of a moderator or token.
pub fn check_passphrase(stored: Option<String>, passphrase: &[u8]) -> (r: Result<bool, ModerationError>)
    ensures
        r == check_passphrase_spec(
            match stored {
                Some(h) => Some(h@),
                None => None,
            },
            passphrase@,
        ),
{
    match stored {
        None => Ok(false),
        Some(h) => match argon2_verify(h.as_str(), passphrase) {
            Some(b) => Ok(b),
            None => Err(ModerationError::MalformedStoredHash),
        },
    }
}

fn same_chars(a: &Vec<char>, b: &Vec<char>) -> (r: bool)
    ensures
        r == (a@ == b@),
{
    if a.len() != b.len() {
        return false;
    }
    let mut i: usize = 0;
    while i < a.len()
        invariant
            i <= a.len(),
            a.len() == b.len(),
            forall|k: int| 0 <= k < i ==> a@[k] == b@[k],
        decreases a.len() - i,
    {
        if a[i] != b[i] {
            return false;
        }
        i = i + 1;
    }
    assert(a@ =~= b@);
    true
}

/// Whether two strings hold the same characters.
pub fn same_text(a: &str, b: &str) -> (r: bool)
    ensures
        r == (a@ == b@),
{
    let ca = crate::text::chars_of(a);
    let cb = crate::text::chars_of(b);
    same_chars(&ca, &cb)
}

/// Whether the administrator's pin and passphrase are the server's.
pub fn admin_credentials_match(pin: &str, passphrase: &str, server_pin: &str, server_passphrase: &str) -> (r: bool)
    ensures
        r == (pin@ == server_pin@ && passphrase@ == server_passphrase@),
{
    same_text(pin, server_pin) && same_text(passphrase, server_passphrase)
}

/// Whether the setting `G_OPEN` opens the announcement board `g` to
/// everyone: it does when it reads `true`.
pub fn g_open_setting(value: &str) -> (r: bool)
    ensures
        r == (value@ == "true"@),
{
    same_text(value, "true")
}

/// The number of seconds in a suspension of `for_days` days.
pub fn suspension_seconds(for_days: u64) -> (r: u64)
    requires
        for_days * 86400 <= u64::MAX,
    ensures
        r == for_days * 86400,
{
    for_days * 24 * 60 * 60
}

/// The suspension that a moderator's "suspend" action imposes, in days.
pub const SUSPENSION_DAYS: u64 = 7;

} // verus!
