//! A local secret store: each named secret lives in its own file, sealed with
//! AES-256-GCM under a key derived from the user's passphrase.

pub mod config;
pub mod crypto;
pub mod error;
pub mod global;
pub mod vault;

pub use config::ConfigCommand;
pub use crypto::{Aes256GcmEngine, Engine};
pub use error::Error;

use vstd::prelude::*;

verus! {

/// A command that runs to completion and reports a message or an error text.
pub trait ExecutableCommand {
    fn execute(self) -> Result<String, String>;
}

} // verus!
