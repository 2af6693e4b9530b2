//! The secret record that carries a credential to and from the service, and
//! its encoding under a session.

use crate::crypto::{
    aes128_cbc_decrypt, aes128_cbc_encrypt, cbc_plaintext, decrypt, encrypt, random_bytes,
    BLOCK_LEN,
};
use crate::error::Error;
use crate::session::Session;
use vstd::prelude::*;
use vstd::slice::slice_to_vec;

verus! {

/// A secret as it travels on the bus.
pub struct SecretStruct {
    /// The session the secret was encoded for.
    pub session: String,
    /// The IV of an encrypted secret; empty for a plain one.
    pub parameters: Vec<u8>,
    /// The secret, encrypted if the session has a key.
    pub value: Vec<u8>,
    /// How the decoded secret is to be read, e.g. `text/plain`.
    pub content_type: String,
}

/// `parameters` and `value` carry `secret` under a session with key `key`:
/// as it is, with no parameters, for a plain session; otherwise encrypted
/// under the 16-byte key and a 16-byte IV, to a value that the key and IV
/// decrypt back.
pub open spec fn encodes(
    key: Option<Seq<u8>>,
    secret: Seq<u8>,
    parameters: Seq<u8>,
    value: Seq<u8>,
) -> bool {
    match key {
        None => parameters.len() == 0 && value == secret,
        Some(k) => {
            &&& k.len() == BLOCK_LEN
            &&& parameters.len() == BLOCK_LEN
            &&& value == aes128_cbc_encrypt(k, parameters, secret)
            &&& aes128_cbc_decrypt(k, parameters, value) == Some(secret)
        },
    }
}

/// What `parameters` and `value` decode to under a session with key `key`:
/// the value itself for a plain session, whatever the parameters.
pub open spec fn decoded(key: Option<Seq<u8>>, parameters: Seq<u8>, value: Seq<u8>) -> Option<
    Seq<u8>,
> {
    match key {
        None => Some(value),
        Some(k) => cbc_plaintext(k, parameters, value),
    }
}

/// `record` is one that `format_secret` may make of `secret` and
/// `content_type` for `session`.
pub open spec fn formatted(
    session: Session,
    secret: Seq<u8>,
    content_type: Seq<char>,
    record: SecretStruct,
) -> bool {
    &&& record.session@ == session.path()
    &&& record.content_type@ == content_type
    &&& encodes(session.key(), secret, record.parameters@, record.value@)
}

/// Round trip: a record made of `secret` for a session decodes under that
/// session to `secret`, with either kind of session and for an empty secret
/// too.
pub proof fn lemma_round_trip(
    session: Session,
    secret: Seq<u8>,
    content_type: Seq<char>,
    record: SecretStruct,
)
    requires
        formatted(session, secret, content_type, record),
    ensures
        decoded(session.key(), record.parameters@, record.value@) == Some(secret),
{
}

/// Builds the record that carries `secret` for `session`: encrypted under a
/// fresh random IV when the session has a key, as it is otherwise. Fails only
/// when no random IV can be had.
pub fn format_secret(session: &Session, secret: &[u8], content_type: &str) -> (r: Result<
    SecretStruct,
    Error,
>)
    ensures
        session.key() is None ==> r is Ok,
        r matches Ok(record) ==> formatted(*session, secret@, content_type@, record),
        r matches Err(e) ==> session.key() is Some && e is Crypto,
{
    let content_type = content_type.to_owned();
    match session.get_aes_key() {
        Some(session_key) => {
            match random_bytes(BLOCK_LEN) {
                Some(aes_iv) => {
                    match encrypt(secret, session_key.as_slice(), aes_iv.as_slice()) {
                        Ok(value) => Ok(
                            SecretStruct {
                                session: session.object_path().clone(),
                                parameters: aes_iv,
                                value,
                                content_type,
                            },
                        ),
                        Err(e) => Err(e),
                    }
                },
                None => Err(Error::Crypto("no random bytes for the IV")),
            }
        },
        None => Ok(
            SecretStruct {
                session: session.object_path().clone(),
                parameters: Vec::new(),
                value: slice_to_vec(secret),
                content_type,
            },
        ),
    }
}

/// Recovers the secret that `secret` carries for `session`: decrypts it when
/// the session has a key, and otherwise returns its value as it is.
pub fn decode_secret(secret: &SecretStruct, session: &Session) -> (r: Result<Vec<u8>, Error>)
    ensures
        r matches Ok(p) ==> decoded(session.key(), secret.parameters@, secret.value@) == Some(p@),
        r matches Err(e) ==> decoded(session.key(), secret.parameters@, secret.value@) is None
            && e is Crypto,
        session.key() is Some && (secret.value@.len() == 0 || secret.value@.len() % 16 != 0)
            ==> r is Err,
{
    match session.get_aes_key() {
        Some(session_key) => decrypt(
            secret.value.as_slice(),
            session_key.as_slice(),
            secret.parameters.as_slice(),
        ),
        None => Ok(secret.value.clone()),
    }
}

} // verus!
