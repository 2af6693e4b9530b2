//! Session negotiation: the Diffie-Hellman exchange over the 1024-bit MODP
//! group, the derivation of the AES key from its shared secret, and the
//! negotiated session itself.

use crate::bignum::{be_nat, nat_to_be, powm, BigNum, lemma_be_nat_bound};
use crate::crypto::{hkdf, hkdf_sha256_key, random_bytes, BLOCK_LEN};
use crate::error::Error;
use vstd::arithmetic::div_mod::*;
use vstd::arithmetic::power::*;
use vstd::prelude::*;

verus! {

/// Algorithm name of a session whose secrets travel unencrypted.
pub const ALGORITHM_PLAIN: &'static str = "plain";

/// Algorithm name of a session keyed by Diffie-Hellman over the 1024-bit MODP
/// group, with HKDF-SHA256 and AES-128-CBC with PKCS#7 padding.
pub const ALGORITHM_DH: &'static str = "dh-ietf1024-sha256-aes128-cbc-pkcs7";

/// Length in bytes of the group's prime, of a private exponent and of the
/// padded shared secret.
pub const DH_LEN: usize = 128;

/// The group's generator.
pub const DH_GENERATOR: u8 = 2;

/// The 1024-bit MODP prime of RFC 2409 (the Second Oakley Group), big-endian.
pub const DH_PRIME: [u8; 128] = [
    0xff, 0xff, 0xff, 0xff, 0xff, 0xff, 0xff, 0xff, 0xc9, 0x0f, 0xda, 0xa2,
    0x21, 0x68, 0xc2, 0x34, 0xc4, 0xc6, 0x62, 0x8b, 0x80, 0xdc, 0x1c, 0xd1,
    0x29, 0x02, 0x4e, 0x08, 0x8a, 0x67, 0xcc, 0x74, 0x02, 0x0b, 0xbe, 0xa6,
    0x3b, 0x13, 0x9b, 0x22, 0x51, 0x4a, 0x08, 0x79, 0x8e, 0x34, 0x04, 0xdd,
    0xef, 0x95, 0x19, 0xb3, 0xcd, 0x3a, 0x43, 0x1b, 0x30, 0x2b, 0x0a, 0x6d,
    0xf2, 0x5f, 0x14, 0x37, 0x4f, 0xe1, 0x35, 0x6d, 0x6d, 0x51, 0xc2, 0x45,
    0xe4, 0x85, 0xb5, 0x76, 0x62, 0x5e, 0x7e, 0xc6, 0xf4, 0x4c, 0x42, 0xe9,
    0xa6, 0x37, 0xed, 0x6b, 0x0b, 0xff, 0x5c, 0xb6, 0xf4, 0x06, 0xb7, 0xed,
    0xee, 0x38, 0x6b, 0xfb, 0x5a, 0x89, 0x9f, 0xa5, 0xae, 0x9f, 0x24, 0x11,
    0x7c, 0x4b, 0x1f, 0xe6, 0x49, 0x28, 0x66, 0x51, 0xec, 0xe6, 0x53, 0x81,
    0xff, 0xff, 0xff, 0xff, 0xff, 0xff, 0xff, 0xff
];

/// How the secrets of a session travel.
#[derive(Debug, Clone, Copy, PartialEq, Eq)]
pub enum EncryptionType {
    /// Unencrypted.
    Plain,
    /// Encrypted under a key agreed by Diffie-Hellman.
    Dh,
}

impl EncryptionType {
    /// The algorithm name to open a session of this kind with.
    pub fn algorithm(&self) -> (r: &'static str)
        ensures
            *self == EncryptionType::Plain ==> r@ == ALGORITHM_PLAIN@,
            *self == EncryptionType::Dh ==> r@ == ALGORITHM_DH@,
    {
        match self {
            EncryptionType::Plain => ALGORITHM_PLAIN,
            EncryptionType::Dh => ALGORITHM_DH,
        }
    }
}

pub open spec fn dh_prime() -> nat {
    be_nat(DH_PRIME@)
}

/// The public value that goes with a private exponent.
pub open spec fn dh_public(private: nat) -> nat {
    (pow(DH_GENERATOR as int, private) % dh_prime() as int) as nat
}

/// The secret that a private exponent shares with the holder of `peer_public`.
pub open spec fn dh_shared_secret(private: nat, peer_public: nat) -> nat {
    (pow(peer_public as int, private) % dh_prime() as int) as nat
}

/// The AES key of a session: HKDF over the shared secret, left-padded with
/// zeros to the length of the prime.
pub open spec fn dh_session_key(private: nat, peer_public: nat) -> Seq<u8> {
    hkdf_sha256_key(nat_to_be(dh_shared_secret(private, peer_public), DH_LEN as nat))
}

proof fn lemma_dh_prime_bounds()
    ensures
        0 < dh_prime() < pow(256, DH_LEN as nat),
{
    assert(DH_PRIME@.len() == DH_LEN);
    assert(DH_PRIME@.last() == 0xffu8);
    lemma_be_nat_bound(DH_PRIME@);
}

fn dh_prime_num() -> (r: BigNum)
    ensures
        r@ == dh_prime(),
{
    BigNum::from_bytes_be(DH_PRIME.as_slice())
}

/// Both ends of the exchange derive the same key: the client's exponent with
/// the server's public value gives what the server's exponent with the
/// client's public value gives.
pub proof fn lemma_key_exchange_agrees(client_private: nat, server_private: nat)
    ensures
        dh_session_key(client_private, dh_public(server_private)) == dh_session_key(
            server_private,
            dh_public(client_private),
        ),
{
    lemma_dh_prime_bounds();
    let p = dh_prime() as int;
    let g = DH_GENERATOR as int;
    lemma_pow_mod_noop(pow(g, server_private), client_private, p);
    lemma_pow_mod_noop(pow(g, client_private), server_private, p);
    lemma_pow_multiplies(g, server_private, client_private);
    lemma_pow_multiplies(g, client_private, server_private);
    assert(server_private * client_private == client_private * server_private) by (nonlinear_arith);
    lemma_mod_bound(pow(g, server_private), p);
    lemma_mod_bound(pow(g, client_private), p);
    assert(dh_shared_secret(client_private, dh_public(server_private)) == dh_shared_secret(
        server_private,
        dh_public(client_private),
    ));
}

/// An ephemeral Diffie-Hellman key pair. It lives only while a session is
/// being opened: opening the session consumes it.
pub struct Keypair {
    private: BigNum,
    public: BigNum,
}

impl Keypair {
    #[verifier::type_invariant]
    spec fn inv(&self) -> bool {
        self.public@ == dh_public(self.private@)
    }

    pub closed spec fn private_value(&self) -> nat {
        self.private@
    }

    pub closed spec fn public_value(&self) -> nat {
        self.public@
    }

    /// The key pair of the private exponent whose big-endian encoding is
    /// `private_key`.
    pub fn from_private_key(private_key: &[u8]) -> (r: Keypair)
        ensures
            r.private_value() == be_nat(private_key@),
            r.public_value() == dh_public(be_nat(private_key@)),
    {
        proof {
            lemma_dh_prime_bounds();
        }
        let private = BigNum::from_bytes_be(private_key);
        let public = powm(&BigNum::from_u8(DH_GENERATOR), &private, &dh_prime_num());
        Keypair { private, public }
    }

    /// A key pair with a private exponent of 128 random bytes.
    pub fn generate() -> (r: Result<Keypair, Error>)
        ensures
            r matches Ok(k) ==> k.private_value() < pow(256, DH_LEN as nat) && k.public_value()
                == dh_public(k.private_value()),
            r matches Err(e) ==> e is Crypto,
    {
        match random_bytes(DH_LEN) {
            Some(bytes) => {
                proof {
                    lemma_be_nat_bound(bytes@);
                }
                Ok(Keypair::from_private_key(bytes.as_slice()))
            },
            None => Err(Error::Crypto("no random bytes for the private key")),
        }
    }

    /// The public value, big-endian, as it is sent to the service.
    pub fn public_key_bytes(&self) -> (r: Vec<u8>)
        ensures
            be_nat(r@) == self.public_value(),
    {
        self.public.to_bytes_be()
    }

    /// The AES key that this key pair shares with the holder of
    /// `server_public_key` (big-endian).
    pub fn derive_shared(&self, server_public_key: &[u8]) -> (r: Vec<u8>)
        ensures
            r@ == dh_session_key(self.private_value(), be_nat(server_public_key@)),
            r@.len() == BLOCK_LEN,
    {
        proof {
            lemma_dh_prime_bounds();
        }
        let server_public = BigNum::from_bytes_be(server_public_key);
        let common_secret = powm(&server_public, &self.private, &dh_prime_num());
        proof {
            lemma_mod_bound(pow(server_public@ as int, self.private@), dh_prime() as int);
        }
        let ikm = common_secret.to_bytes_be_padded(DH_LEN);
        hkdf(ikm.as_slice())
    }
}

/// A negotiated session: the service's reference to it, and the AES key its
/// secrets are encrypted under, if any.
pub struct Session {
    object_path: String,
    aes_key: Option<Vec<u8>>,
}

impl Session {
    #[verifier::type_invariant]
    spec fn inv(&self) -> bool {
        self.aes_key matches Some(k) ==> k@.len() == BLOCK_LEN
    }

    pub closed spec fn path(&self) -> Seq<char> {
        self.object_path@
    }

    pub closed spec fn key(&self) -> Option<Seq<u8>> {
        match self.aes_key {
            Some(k) => Some(k@),
            None => None,
        }
    }

    /// A session whose secrets travel unencrypted.
    pub fn new_plain(object_path: String) -> (r: Session)
        ensures
            r.path() == object_path@,
            r.key() is None,
    {
        Session { object_path, aes_key: None }
    }

    /// The encrypted session that the service opened at `object_path` in
    /// answer to `keypair`'s public value, with `server_public_key` as its own.
    /// The key pair is used up.
    pub fn encrypted_session(keypair: Keypair, object_path: String, server_public_key: &[u8]) -> (r:
        Session)
        ensures
            r.path() == object_path@,
            r.key() == Some(
                dh_session_key(keypair.private_value(), be_nat(server_public_key@)),
            ),
    {
        let aes_key = keypair.derive_shared(server_public_key);
        Session { object_path, aes_key: Some(aes_key) }
    }

    pub fn object_path(&self) -> (r: &String)
        ensures
            r@ == self.path(),
    {
        &self.object_path
    }

    pub fn get_aes_key(&self) -> (r: Option<&Vec<u8>>)
        ensures
            r is None <==> self.key() is None,
            r matches Some(k) ==> self.key() == Some(k@) && k@.len() == BLOCK_LEN,
    {
        proof {
            use_type_invariant(self);
        }
        self.aes_key.as_ref()
    }
}

} // verus!
