use vstd::prelude::*;
use vstd::utf8::{decode_utf8, encode_utf8, valid_utf8};

use crate::crypto::{
    bytes_view, open_outcome, seal_outcome, Aes256GcmEngine, MAX_PASSPHRASE_LEN, MAX_SEAL_LEN,
    derived_key,
};
use crate::error::Error;
use crate::global::{home_dir, join_path, joined_path, yap_dir_in, YAP_DIR};

verus! {

/// Relies on std's String::from_utf8: it succeeds exactly on valid UTF-8 and
/// then holds the characters those bytes encode.
#[verifier::external_body]
fn string_from_utf8(bytes: Vec<u8>) -> (r: Option<String>)
    ensures
        r is Some <==> valid_utf8(bytes@),
        r is Some ==> r->Some_0@ == decode_utf8(bytes@),
{
    String::from_utf8(bytes).ok()
}

/// What reading a stored secret gives: the sealed file opened under `key`,
/// then read as UTF-8 text.
pub open spec fn secret_outcome(key: Seq<u8>, file: Seq<u8>, r: Result<String, Error>) -> bool {
    exists|opened: Result<Seq<u8>, Error>|
        {
            &&& #[trigger] open_outcome(key, file, opened)
            &&& match opened {
                Ok(p) => if valid_utf8(p) {
                    r is Ok && r->Ok_0@ == decode_utf8(p)
                } else {
                    r == Err::<String, Error>(Error::UTF8Error)
                },
                Err(e) => r == Err::<String, Error>(e),
            }
        }
}

/// A vault that keeps each secret sealed in a file of its own, named after the
/// secret, inside one directory.
pub struct SimpleVault {
    vault_dir: String,
    engine: Aes256GcmEngine,
}

impl SimpleVault {
    /// The vault's directory.
    pub closed spec fn dir(&self) -> Seq<char> {
        self.vault_dir@
    }

    /// The key that the vault's secrets are sealed under.
    pub closed spec fn key(&self) -> Seq<u8> {
        self.engine.key()
    }

    /// A vault over `vault_dir` whose key is derived from `pass`.
    pub fn load(vault_dir: String, pass: String) -> (r: Result<SimpleVault, Error>)
        requires
            encode_utf8(pass@).len() <= MAX_PASSPHRASE_LEN,
        ensures
            r is Ok,
            r->Ok_0.dir() == vault_dir@,
            r->Ok_0.key() == derived_key(pass@),
    {
        let engine = Aes256GcmEngine::new(pass)?;
        Ok(SimpleVault { vault_dir, engine })
    }

    /// The vault's directory.
    pub fn vault_dir(&self) -> (r: &str)
        ensures
            r@ == self.dir(),
    {
        self.vault_dir.as_str()
    }

    /// The engine that seals and opens the vault's secrets.
    pub fn engine(&self) -> (r: &Aes256GcmEngine)
        ensures
            r.key() == self.key(),
    {
        &self.engine
    }

    /// The path of the file that holds the secret `key`.
    pub fn secret_path(&self, key: &str) -> (r: String)
        ensures
            r@ == joined_path(self.dir(), key@),
    {
        join_path(self.vault_dir.as_str(), key)
    }

    /// Reads the secret `key` from the content of its file, `None` when there
    /// is no such file: that fails with `PasswordNotFound`. Otherwise the file
    /// is opened and its plaintext read as UTF-8.
    pub fn get_key(&self, key: &str, file: Option<Vec<u8>>) -> (r: Result<String, Error>)
        ensures
            file is None ==> (r matches Err(Error::PasswordNotFound { name }) && name@ == key@),
            file is Some ==> secret_outcome(self.key(), file->Some_0@, r),
    {
        match file {
            None => Err(Error::PasswordNotFound { name: key.to_owned() }),
            Some(data) => {
                let opened = self.engine.decrypt_bytes(data.as_slice());
                assert(open_outcome(self.key(), data@, bytes_view(opened)));
                match opened {
                    Ok(plaintext) => match string_from_utf8(plaintext) {
                        Some(s) => Ok(s),
                        None => Err(Error::UTF8Error),
                    },
                    Err(e) => Err(e),
                }
            },
        }
    }

    /// Seals `value` for the secret `key`: the path of its file and the bytes
    /// to write there. Within the cipher's limit it fails only when the random
    /// source does, with `EntropyFailure`.
    pub fn set_key(&self, key: &str, value: String) -> (r: Result<(String, Vec<u8>), Error>)
        ensures
            r is Ok ==> r->Ok_0.0@ == joined_path(self.dir(), key@),
            match r {
                Ok(out) => seal_outcome(self.key(), encode_utf8(value@), Ok(out.1@)),
                Err(e) => seal_outcome(self.key(), encode_utf8(value@), Err(e)),
            },
            encode_utf8(value@).len() <= MAX_SEAL_LEN && r is Err ==> r == Err::<
                (String, Vec<u8>),
                Error,
            >(Error::EntropyFailure),
    {
        let path = self.secret_path(key);
        let sealed = self.engine.encrypt_bytes(value.as_str().as_bytes())?;
        Ok((path, sealed))
    }
}

/// The vault directory: `path` when given, else the store directory under the
/// home directory, and `NoHomeDir` when there is none.
pub fn get_path_or_default(path: Option<String>, home: Option<String>) -> (r: Result<
    String,
    Error,
>)
    ensures
        path is Some ==> r is Ok && r->Ok_0@ == path->Some_0@,
        path is None && home is None ==> r == Err::<String, Error>(Error::NoHomeDir),
        path is None && home is Some ==> r is Ok && r->Ok_0@ == joined_path(
            home->Some_0@,
            YAP_DIR@,
        ),
{
    match path {
        Some(p) => Ok(p),
        None => yap_dir_in(home),
    }
}

/// Opens the vault at `store`, or at the default directory, with a key derived
/// from `pass`. Only without `store` is the home directory looked up, and then
/// this fails with `NoHomeDir` when none can be found.
pub fn load(store: Option<String>, pass: String) -> (r: Result<SimpleVault, Error>)
    requires
        encode_utf8(pass@).len() <= MAX_PASSPHRASE_LEN,
    ensures
        store is Some ==> r is Ok && r->Ok_0.dir() == store->Some_0@,
        r is Err ==> r == Err::<SimpleVault, Error>(Error::NoHomeDir),
        r is Ok ==> r->Ok_0.key() == derived_key(pass@),
        r is Ok && store is None ==> exists|h: Seq<char>|
            r->Ok_0.dir() == joined_path(h, YAP_DIR@),
{
    let home = if store.is_some() {
        None
    } else {
        home_dir()
    };
    let vault_dir = get_path_or_default(store, home)?;
    SimpleVault::load(vault_dir, pass)
}

/// Sets up a vault at `store`, or at the default directory; the caller makes
/// the directory. Its contract is that of `load`.
pub fn create(store: Option<String>, pass: String) -> (r: Result<SimpleVault, Error>)
    requires
        encode_utf8(pass@).len() <= MAX_PASSPHRASE_LEN,
    ensures
        store is Some ==> r is Ok && r->Ok_0.dir() == store->Some_0@,
        r is Err ==> r == Err::<SimpleVault, Error>(Error::NoHomeDir),
        r is Ok ==> r->Ok_0.key() == derived_key(pass@),
        r is Ok && store is None ==> exists|h: Seq<char>|
            r->Ok_0.dir() == joined_path(h, YAP_DIR@),
{
    load(store, pass)
}

} // verus!
