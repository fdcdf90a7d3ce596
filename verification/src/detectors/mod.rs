//! Detectors of weak cryptography: TLS versions, plaintext OT sessions and
//! certificate weaknesses.

pub mod cert;
pub mod plaintext;
pub mod tls;
