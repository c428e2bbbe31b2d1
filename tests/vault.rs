use yap::crypto::Aes256GcmEngine;
use yap::config::config_file_path;
use yap::global::yap_dir_in;
use yap::vault::{self, get_path_or_default, SimpleVault};
use yap::Error;

fn sample() -> SimpleVault {
    SimpleVault::load("/tmp/v".to_string(), "asdf".to_string()).unwrap()
}

#[test]
fn create_and_load_simple_vault() {
    let yap_test = String::from(".yap_test");

    let simple_vault = vault::create(Some(yap_test.clone()), "asdf".to_string());
    assert!(simple_vault.is_ok());

    let simple_vault = vault::load(Some(yap_test), "asdf".to_string());
    assert!(simple_vault.is_ok());
    assert_eq!(simple_vault.unwrap().vault_dir(), ".yap_test");
}

#[test]
fn store_or_default_directory() {
    let home = Some("/home/u".to_string());
    assert_eq!(get_path_or_default(Some("s".to_string()), home.clone()), Ok("s".to_string()));
    assert_eq!(get_path_or_default(None, home), Ok("/home/u/.yap".to_string()));
    assert_eq!(get_path_or_default(Some("s".to_string()), None), Ok("s".to_string()));
    assert_eq!(get_path_or_default(None, None), Err(Error::NoHomeDir));
    assert_eq!(yap_dir_in(None), Err(Error::NoHomeDir));
}

#[test]
fn paths_join_under_the_base() {
    assert_eq!(config_file_path("a/b"), "a/b/config.yaml");
    assert_eq!(sample().secret_path("github"), "/tmp/v/github");
}

#[test]
fn set_then_get_a_secret() {
    let v = sample();
    let (path, bytes) = v.set_key("mail", "hunter2".to_string()).unwrap();
    assert_eq!(path, "/tmp/v/mail");
    assert_eq!(bytes.len(), 7 + 28);
    assert_eq!(v.get_key("mail", Some(bytes)), Ok("hunter2".to_string()));
}

#[test]
fn missing_secret_is_not_found() {
    assert_eq!(sample().get_key("nope", None), Err(Error::PasswordNotFound { name: "nope".to_string() }));
}

#[test]
fn non_utf8_secret_is_rejected() {
    let v = sample();
    let sealed = v.engine().encrypt_bytes(&[0xff, 0xfe]).unwrap();
    assert_eq!(v.get_key("bin", Some(sealed)), Err(Error::UTF8Error));
}

#[test]
fn secret_from_another_passphrase_fails() {
    let sealed = Aes256GcmEngine::new("other".to_string()).unwrap().encrypt_bytes(b"x").unwrap();
    assert_eq!(sample().get_key("x", Some(sealed)), Err(Error::AuthenticationFailure));
    assert_eq!(sample().get_key("x", Some(vec![1, 2, 3])), Err(Error::MalformedInput));
}
