use secret_service::secret::{decode_secret, format_secret};
use secret_service::{Error, Keypair, SecretStruct, Session};

const PATH: &str = "/org/freedesktop/secrets/session/7";

fn plain_session() -> Session {
    Session::new_plain(PATH.to_string())
}

fn dh_session() -> Session {
    let client = Keypair::generate().unwrap();
    let server = Keypair::generate().unwrap();
    Session::encrypted_session(client, PATH.to_string(), &server.public_key_bytes())
}

#[test]
fn plain_session_secret_storage() {
    let session = plain_session();
    let record = format_secret(&session, b"hunter2", "text/plain").unwrap();
    assert!(record.parameters.is_empty());
    assert_eq!(record.value, b"hunter2");
    assert_eq!(record.session, PATH);
    assert_eq!(record.content_type, "text/plain");
    assert_eq!(decode_secret(&record, &session).unwrap(), b"hunter2");
}

#[test]
fn dh_session_empty_secret() {
    let session = dh_session();
    let record = format_secret(&session, b"", "text/plain").unwrap();
    assert!(!record.value.is_empty());
    assert_eq!(record.value.len(), 16);
    assert_eq!(record.parameters.len(), 16);
    assert_eq!(decode_secret(&record, &session).unwrap(), b"");
}

#[test]
fn round_trip_both_modes() {
    let secrets: Vec<Vec<u8>> = vec![
        vec![],
        b"test".to_vec(),
        b"test_encrypted".to_vec(),
        vec![0u8; 16],
        (0..=255u8).collect(),
    ];
    for session in [plain_session(), dh_session()] {
        for s in &secrets {
            let record = format_secret(&session, s, "application/octet-stream").unwrap();
            assert_eq!(&decode_secret(&record, &session).unwrap(), s);
        }
    }
}

#[test]
fn encrypted_value_differs_from_secret() {
    let session = dh_session();
    let record = format_secret(&session, b"test_secret", "text/plain").unwrap();
    assert_ne!(record.value, b"test_secret");
    assert_eq!(record.value.len(), 16);
}

#[test]
fn each_record_gets_a_fresh_iv() {
    let session = dh_session();
    let a = format_secret(&session, b"same", "text/plain").unwrap();
    let b = format_secret(&session, b"same", "text/plain").unwrap();
    assert_ne!(a.parameters, b.parameters);
    assert_ne!(a.value, b.value);
}

#[test]
fn plain_mode_passes_secret_through() {
    let session = plain_session();
    let record = format_secret(&session, &[0, 1, 2, 255], "text/plain").unwrap();
    assert_eq!(record.value, vec![0, 1, 2, 255]);
    assert!(record.parameters.is_empty());
}

#[test]
fn plain_decode_ignores_parameters() {
    let record = SecretStruct {
        session: PATH.to_string(),
        parameters: vec![1, 2, 3],
        value: b"as is".to_vec(),
        content_type: "text/plain".to_string(),
    };
    assert_eq!(decode_secret(&record, &plain_session()).unwrap(), b"as is");
}

#[test]
fn decode_refuses_truncated_ciphertext() {
    let session = dh_session();
    let mut record = format_secret(&session, b"hunter2", "text/plain").unwrap();
    record.value.truncate(15);
    assert!(matches!(decode_secret(&record, &session), Err(Error::Crypto(_))));
    record.value.clear();
    assert!(matches!(decode_secret(&record, &session), Err(Error::Crypto(_))));
}

#[test]
fn decode_refuses_corrupted_padding() {
    let session = dh_session();
    let mut record = format_secret(&session, b"", "text/plain").unwrap();
    record.parameters[15] ^= 0x10;
    assert!(matches!(decode_secret(&record, &session), Err(Error::Crypto(_))));
}

#[test]
fn decode_refuses_missing_iv() {
    let session = dh_session();
    let mut record = format_secret(&session, b"hunter2", "text/plain").unwrap();
    record.parameters.clear();
    assert!(matches!(decode_secret(&record, &session), Err(Error::Crypto(_))));
}

#[test]
fn decode_under_another_key_does_not_return_the_secret() {
    let session = dh_session();
    let other = dh_session();
    let record = format_secret(&session, b"hunter2", "text/plain").unwrap();
    match decode_secret(&record, &other) {
        Ok(v) => assert_ne!(v, b"hunter2"),
        Err(e) => assert!(matches!(e, Error::Crypto(_))),
    }
}

#[test]
fn round_trip_large_secret() {
    let secret: Vec<u8> = (0..65536u32).map(|i| (i % 251) as u8).collect();
    for session in [plain_session(), dh_session()] {
        let record = format_secret(&session, &secret, "application/octet-stream").unwrap();
        assert_eq!(decode_secret(&record, &session).unwrap(), secret);
    }
}
