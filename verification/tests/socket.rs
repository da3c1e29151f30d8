use rsa::{PaddingScheme, PublicKeyParts, RsaPrivateKey};
use mirrorx_core::error::CoreError;
use mirrorx_core::socket::{
    begin_key_exchange_and_password_verify, complete_desktop_connect,
    finish_key_exchange_and_password_verify, prepare_desktop_connect, EndpointTable,
    KeyExchangeAndVerifyPasswordResponse,
};

const EXPONENT_65537: [u8; 3] = [1, 0, 1];

fn modulus(len: usize) -> Vec<u8> {
    vec![0xffu8; len]
}

fn connect(table: &mut EndpointTable, remote: &str, n: &[u8], e: &[u8]) -> Result<(), CoreError> {
    let target = prepare_desktop_connect(table, remote.to_string(), Some("local".to_string()))?;
    complete_desktop_connect(table, target, n, e)
}

#[test]
fn connect_registers_endpoint() {
    let mut table = EndpointTable::new();
    assert!(!table.contains(&"remote".to_string()));
    assert_eq!(connect(&mut table, "remote", &modulus(64), &EXPONENT_65537), Ok(()));
    assert!(table.contains(&"remote".to_string()));
    assert!(!table.contains(&"other".to_string()));
    assert_eq!(table.password_verify_key_size(&"remote".to_string()), Some(64));
}

#[test]
fn connecting_twice_is_refused() {
    let mut table = EndpointTable::new();
    connect(&mut table, "remote", &modulus(64), &EXPONENT_65537).unwrap();
    let again = prepare_desktop_connect(&table, "remote".to_string(), Some("local".to_string()));
    assert_eq!(again.err(), Some(CoreError::AlreadyConnected));
}

#[test]
fn missing_local_id_is_refused() {
    let table = EndpointTable::new();
    let r = prepare_desktop_connect(&table, "remote".to_string(), None);
    assert_eq!(r.err(), Some(CoreError::LocalDeviceIdNotSet));
}

#[test]
fn connect_target_carries_ids() {
    let table = EndpointTable::new();
    let t = prepare_desktop_connect(&table, "remote".to_string(), Some("me".to_string())).unwrap();
    assert_eq!(t.local_device_id, "me");
    assert_eq!(t.remote_device_id, "remote");
}

#[test]
fn exponent_bounds() {
    let mut table = EndpointTable::new();
    assert_eq!(
        connect(&mut table, "one", &modulus(64), &[1]),
        Err(CoreError::InvalidPasswordVerifyPublicKey)
    );
    assert!(!table.contains(&"one".to_string()));
    // 2^30 + 1 is too large, 2^30 is accepted
    assert_eq!(
        connect(&mut table, "big", &modulus(64), &[1, 0, 0, 0x40]),
        Err(CoreError::InvalidPasswordVerifyPublicKey)
    );
    assert_eq!(connect(&mut table, "big", &modulus(64), &[0, 0, 0, 0x40]), Ok(()));
    assert_eq!(connect(&mut table, "two", &modulus(64), &[2]), Ok(()));
}

#[test]
fn key_size_ignores_high_zero_bytes() {
    let mut table = EndpointTable::new();
    let mut n = modulus(20);
    n.extend_from_slice(&[0, 0, 0]);
    connect(&mut table, "remote", &n, &EXPONENT_65537).unwrap();
    assert_eq!(table.password_verify_key_size(&"remote".to_string()), Some(20));
}

#[test]
fn key_exchange_with_unknown_device() {
    let mut table = EndpointTable::new();
    let r = begin_key_exchange_and_password_verify(
        &mut table,
        &"nobody".to_string(),
        &"password".to_string(),
    );
    assert_eq!(r.err(), Some(CoreError::RemoteDeviceNotConnected));
}

#[test]
fn key_exchange_request() {
    let mut table = EndpointTable::new();
    connect(&mut table, "remote", &modulus(64), &EXPONENT_65537).unwrap();
    let (request, _pending) = begin_key_exchange_and_password_verify(
        &mut table,
        &"remote".to_string(),
        &"password".to_string(),
    )
    .ok()
    .unwrap();
    assert_eq!(request.password_secret.len(), 64);
    assert_ne!(&request.password_secret[..8], b"password");
    assert_eq!(request.exchange_pub_key.len(), 32);
    assert!(request.exchange_salt.is_empty());
}

#[test]
fn key_serves_one_verification() {
    let mut table = EndpointTable::new();
    connect(&mut table, "remote", &modulus(64), &EXPONENT_65537).unwrap();
    let first =
        begin_key_exchange_and_password_verify(&mut table, &"remote".to_string(), &"pw".to_string());
    assert!(first.is_ok());
    assert!(table.contains(&"remote".to_string()));
    assert_eq!(table.password_verify_key_size(&"remote".to_string()), None);
    let second =
        begin_key_exchange_and_password_verify(&mut table, &"remote".to_string(), &"pw".to_string());
    assert_eq!(second.err(), Some(CoreError::PasswordVerifyPublicKeyNotExists));
}

#[test]
fn password_too_long_for_key() {
    let mut table = EndpointTable::new();
    connect(&mut table, "remote", &modulus(16), &EXPONENT_65537).unwrap();
    // 16-byte key: at most 5 bytes of password
    let long = begin_key_exchange_and_password_verify(
        &mut table,
        &"remote".to_string(),
        &"123456".to_string(),
    );
    assert_eq!(long.err(), Some(CoreError::EncryptPasswordFailed));
    // the key is gone even though encryption failed
    assert_eq!(table.password_verify_key_size(&"remote".to_string()), None);
    connect(&mut table, "other", &modulus(16), &EXPONENT_65537).unwrap();
    let fits = begin_key_exchange_and_password_verify(
        &mut table,
        &"other".to_string(),
        &"12345".to_string(),
    );
    assert_eq!(fits.ok().unwrap().0.password_secret.len(), 16);
}

#[test]
fn refused_password_is_false() {
    let mut table = EndpointTable::new();
    connect(&mut table, "remote", &modulus(64), &EXPONENT_65537).unwrap();
    let (_request, pending) =
        begin_key_exchange_and_password_verify(&mut table, &"remote".to_string(), &"pw".to_string())
            .ok()
            .unwrap();
    let response = KeyExchangeAndVerifyPasswordResponse {
        success: false,
        exchange_pub_key: vec![9u8; 32],
        exchange_salt: vec![],
    };
    assert_eq!(finish_key_exchange_and_password_verify(pending, &response), Ok(false));
}

#[test]
fn accepted_password_fails_key_derivation() {
    let mut table = EndpointTable::new();
    connect(&mut table, "remote", &modulus(64), &EXPONENT_65537).unwrap();
    let (request, pending) =
        begin_key_exchange_and_password_verify(&mut table, &"remote".to_string(), &"pw".to_string())
            .ok()
            .unwrap();
    // the remote answers with a well-formed public key (its own ephemeral one)
    let response = KeyExchangeAndVerifyPasswordResponse {
        success: true,
        exchange_pub_key: request.exchange_pub_key.clone(),
        exchange_salt: vec![1u8; 32],
    };
    assert_eq!(
        finish_key_exchange_and_password_verify(pending, &response),
        Err(CoreError::KeyAgreementFailed)
    );
}

#[test]
fn other_endpoints_untouched() {
    let mut table = EndpointTable::new();
    connect(&mut table, "a", &modulus(64), &EXPONENT_65537).unwrap();
    connect(&mut table, "b", &modulus(32), &EXPONENT_65537).unwrap();
    let _ = begin_key_exchange_and_password_verify(&mut table, &"a".to_string(), &"pw".to_string());
    assert_eq!(table.password_verify_key_size(&"a".to_string()), None);
    assert_eq!(table.password_verify_key_size(&"b".to_string()), Some(32));
    connect(&mut table, "c", &modulus(48), &EXPONENT_65537).unwrap();
    assert_eq!(table.password_verify_key_size(&"b".to_string()), Some(32));
    assert_eq!(table.password_verify_key_size(&"c".to_string()), Some(48));
}

#[test]
fn accepted_password_with_malformed_remote_key() {
    let mut table = EndpointTable::new();
    connect(&mut table, "remote", &modulus(64), &EXPONENT_65537).unwrap();
    let (_request, pending) =
        begin_key_exchange_and_password_verify(&mut table, &"remote".to_string(), &"pw".to_string())
            .ok()
            .unwrap();
    let response = KeyExchangeAndVerifyPasswordResponse {
        success: true,
        exchange_pub_key: vec![9u8; 31],
        exchange_salt: vec![],
    };
    assert_eq!(
        finish_key_exchange_and_password_verify(pending, &response),
        Err(CoreError::KeyAgreementFailed)
    );
}

#[test]
fn password_secret_decrypts_to_password() {
    let mut rng = rand::thread_rng();
    let private_key = RsaPrivateKey::new(&mut rng, 512).unwrap();
    let n = private_key.n().to_bytes_le();
    let e = private_key.e().to_bytes_le();
    let mut table = EndpointTable::new();
    connect(&mut table, "remote", &n, &e).unwrap();
    let (request, _pending) = begin_key_exchange_and_password_verify(
        &mut table,
        &"remote".to_string(),
        &"pässword".to_string(),
    )
    .ok()
    .unwrap();
    assert_eq!(request.password_secret.len(), 64);
    let plain = private_key
        .decrypt(PaddingScheme::new_pkcs1v15_encrypt(), &request.password_secret)
        .unwrap();
    assert_eq!(plain, "pässword".as_bytes());
    assert!(!request
        .password_secret
        .windows(plain.len())
        .any(|w| w == plain.as_slice()));
}

#[test]
fn verification_after_failed_one_is_refused() {
    let mut table = EndpointTable::new();
    connect(&mut table, "remote", &modulus(16), &EXPONENT_65537).unwrap();
    let first = begin_key_exchange_and_password_verify(
        &mut table,
        &"remote".to_string(),
        &"far too long".to_string(),
    );
    assert_eq!(first.err(), Some(CoreError::EncryptPasswordFailed));
    let second =
        begin_key_exchange_and_password_verify(&mut table, &"remote".to_string(), &"pw".to_string());
    assert_eq!(second.err(), Some(CoreError::PasswordVerifyPublicKeyNotExists));
}
