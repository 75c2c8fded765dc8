//! Failures of the cryptographic helpers, as the crates behind them report
//! them.

use vstd::prelude::*;

verus! {

/// The error type of `bcrypt`.
#[verifier::external_type_specification]
#[verifier::external_body]
pub struct ExBcryptError(bcrypt::BcryptError);

pub type Result<T> = std::result::Result<T, CryptError>;

#[derive(Debug)]
pub enum CryptError {
    /// A session token could not be issued or was refused; holds the
    /// complaint.
    JwtError(String),
    /// A password could not be hashed, or a stored hash could not be read.
    BcryptError(bcrypt::BcryptError),
}

} // verus!
