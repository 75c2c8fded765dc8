//! Passwords are stored as bcrypt hashes of cost 12.

use vstd::prelude::*;
use vstd::string::StringSliceAdditionalSpecFns;
use crate::crypt::error::CryptError;
use crate::text::digit_char;

verus! {

/// The work factor of every hash made here.
pub const DEFAULT_COST: u32 = 12;

/// What `bcrypt::verify` makes of a password and a stored hash: whether they
/// match, or `None` where the hash cannot be read.
pub uninterp spec fn bcrypt_verifies(password: Seq<u8>, hash: Seq<char>) -> Option<bool>;

/// How every hash of the given cost begins: `$2b$`, the cost in two digits
/// and `$`.
pub open spec fn hash_prefix(cost: u32) -> Seq<char> {
    seq!['$', '2', 'b', '$', digit_char((cost / 10) as nat), digit_char((cost % 10) as nat), '$']
}

/// `bcrypt::hash`: a hash of the password under a fresh random salt. Two
/// calls on one password give different hashes; each of them has sixty
/// characters, begins with the version and the cost, and verifies against
/// that password. A cost outside `4..=31` is an error.
#[verifier::external_body]
fn bcrypt_hash(password: &[u8], cost: u32) -> (hashed: core::result::Result<
    String,
    bcrypt::BcryptError,
>)
    ensures
        hashed matches Ok(h) ==> bcrypt_verifies(password@, h@) == Some(true),
        hashed matches Ok(h) ==> h@.len() == 60 && h@.subrange(0, 7) == hash_prefix(cost),
        hashed is Ok ==> 4 <= cost <= 31,
{
    bcrypt::hash(password, cost)
}

/// `bcrypt::verify`: reads cost and salt from the stored hash, hashes the
/// password with them and compares. The result is a function of the two
/// arguments alone.
#[verifier::external_body]
fn bcrypt_verify(password: &[u8], hash: &str) -> (verified: core::result::Result<
    bool,
    bcrypt::BcryptError,
>)
    ensures
        match verified {
            Ok(same) => bcrypt_verifies(password@, hash@) == Some(same),
            Err(_) => bcrypt_verifies(password@, hash@) is None,
        },
{
    bcrypt::verify(password, hash)
}

pub struct BcryptController;

impl BcryptController {
    /// Hashes a password with cost 12. Every hash that comes back begins
    /// with `$2b$12$`, has sixty characters and verifies against the
    /// password it was made from.
    pub fn encrypt(s: &str) -> (hashed: Result<String, CryptError>)
        ensures
            match hashed {
                Ok(h) => bcrypt_verifies(s.spec_bytes(), h@) == Some(true) && h@.len() == 60
                    && h@.subrange(0, 7) == "$2b$12$"@,
                Err(e) => e is BcryptError,
            },
    {
        proof {
            reveal_strlit("$2b$12$");
            assert("$2b$12$"@ =~= hash_prefix(DEFAULT_COST));
        }
        match bcrypt_hash(s.as_bytes(), DEFAULT_COST) {
            Ok(hash) => Ok(hash),
            Err(e) => Err(CryptError::BcryptError(e)),
        }
    }

    /// Checks a password against a stored hash; a hash that cannot be read is
    /// an error.
    pub fn verify(s: &str, hash: &str) -> (verified: Result<bool, CryptError>)
        ensures
            match verified {
                Ok(same) => bcrypt_verifies(s.spec_bytes(), hash@) == Some(same),
                Err(e) => e is BcryptError && bcrypt_verifies(s.spec_bytes(), hash@) is None,
            },
    {
        match bcrypt_verify(s.as_bytes(), hash) {
            Ok(same) => Ok(same),
            Err(e) => Err(CryptError::BcryptError(e)),
        }
    }
}

} // verus!
