//! The calls into `argon2` that hash and check moderators' passphrases.

use vstd::prelude::*;

use argon2::password_hash::{PasswordHasher, PasswordVerifier};

verus! {

/// The PHC string that `Argon2::default().hash_password(passphrase, salt)`
/// gives for the B64-encoded `salt`; `None` where the salt does not
/// decode or hashing fails.
pub uninterp spec fn argon2_phc(passphrase: Seq<u8>, salt: Seq<char>) -> Option<Seq<char>>;

/// Whether `Argon2::default().verify_password(passphrase, &hash)` succeeds
/// for the hash that `PasswordHash::new(phc)` parses; `None` where `phc`
/// does not parse.
pub uninterp spec fn argon2_accepts(phc: Seq<char>, passphrase: Seq<u8>) -> Option<bool>;

/// Whether `c` is in the standard Base64 alphabet.
pub open spec fn is_b64_char(c: char) -> bool {
    ||| 'A' <= c <= 'Z'
    ||| 'a' <= c <= 'z'
    ||| '0' <= c <= '9'
    ||| c == '+'
    ||| c == '/'
}

/// Whether `s` is the unpadded standard Base64 encoding of sixteen bytes:
/// twenty-two characters of the alphabet, the last of which holds the
/// two low bits of the sixteenth byte followed by four zero bits (so it
/// is one of `A`, `Q`, `g`, `w`).
pub open spec fn is_sixteen_byte_b64(s: Seq<char>) -> bool {
    &&& s.len() == 22
    &&& forall|i: int| 0 <= i < 22 ==> is_b64_char(#[trigger] s[i])
    &&& (s[21] == 'A' || s[21] == 'Q' || s[21] == 'g' || s[21] == 'w')
}

/// A fresh salt from `SaltString::generate(&mut OsRng)`: sixteen random
/// bytes, B64-encoded. Which bytes is left unsaid; that it is the
/// encoding of sixteen bytes is what `generate` does.
#[verifier::external_body]
pub(crate) fn random_salt() -> (salt: String)
    ensures
        is_sixteen_byte_b64(salt@),
{
    argon2::password_hash::SaltString::generate(&mut argon2::password_hash::rand_core::OsRng)
        .as_str()
        .to_string()
}

/// `Argon2::default().hash_password(passphrase, salt)` with the salt
/// decoded by `Salt::from_b64`, as a PHC string; `None` on any error. The
/// result is named by `argon2_phc`. The hash that it gives is one that
/// `verify_password` accepts for the same passphrase: that is what the
/// crate's `PasswordHasher` and `PasswordVerifier` are for. A salt that
/// encodes sixteen bytes decodes, and with the default parameters hashing
/// then fails only for a passphrase longer than `MAX_PWD_LEN`
/// (`u32::MAX` bytes).
#[verifier::external_body]
pub(crate) fn argon2_hash(passphrase: &[u8], salt: &str) -> (r: Option<String>)
    ensures
        r is Some <==> argon2_phc(passphrase@, salt@) is Some,
        passphrase@.len() > u32::MAX ==> r is None,
        is_sixteen_byte_b64(salt@) && passphrase@.len() <= u32::MAX ==> r is Some,
        r matches Some(h) ==> argon2_phc(passphrase@, salt@) == Some(h@),
        r matches Some(h) ==> argon2_accepts(h@, passphrase@) == Some(true),
{
    match argon2::password_hash::Salt::from_b64(salt) {
        Ok(s) => argon2::Argon2::default().hash_password(passphrase, s).ok().map(|h| h.to_string()),
        Err(_) => None,
    }
}

/// Parses `phc` with `PasswordHash::new` and tells whether
/// `Argon2::default().verify_password(passphrase, &hash)` succeeds;
/// `None` where `phc` does not parse. The result is named by
/// `argon2_accepts`.
#[verifier::external_body]
pub(crate) fn argon2_verify(phc: &str, passphrase: &[u8]) -> (r: Option<bool>)
    ensures
        r == argon2_accepts(phc@, passphrase@),
{
    match argon2::password_hash::PasswordHash::new(phc) {
        Ok(h) => Some(argon2::Argon2::default().verify_password(passphrase, &h).is_ok()),
        Err(_) => None,
    }
}

} // verus!
