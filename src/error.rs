use vstd::prelude::*;

verus! {

/// The closed set of failures that the store reports.
#[derive(Debug, PartialEq, Eq)]
pub enum Error {
    /// No secret of this name is stored in the vault.
    PasswordNotFound { name: String },
    /// The user's home directory could not be determined.
    NoHomeDir,
    /// The setting name is not one of the known settings.
    BadConfigKey { key: String },
    /// The secure random source could not supply a nonce.
    EntropyFailure,
    /// The authentication tag did not verify: wrong key or altered payload.
    AuthenticationFailure,
    /// A sealed payload is too short to hold a nonce and a tag.
    MalformedInput,
    /// The cipher refused to set up a key or to seal a payload.
    CryptoError,
    /// Reading or writing a file failed.
    StdIO { message: String },
    /// The settings file could not be encoded or decoded.
    SerdeYaml { message: String },
    /// A decrypted secret is not valid UTF-8.
    UTF8Error,
}

} // verus!
