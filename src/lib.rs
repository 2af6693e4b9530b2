//! Client-side protocol layer for a desktop secret-storage service: session
//! negotiation with an optional Diffie-Hellman key exchange, encryption of
//! secrets under the negotiated key, the interactive consent prompt, and the
//! decisions taken on responses that may ask for consent.

pub mod bignum;
pub mod crypto;
pub mod error;
pub mod outcome;
pub mod prompt;
pub mod secret;
pub mod session;

pub use error::Error;
pub use secret::SecretStruct;
pub use session::{EncryptionType, Keypair, Session};
