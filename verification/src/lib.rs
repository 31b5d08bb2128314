//! Message authenticity and confidentiality envelope for a chat server:
//! a deterministic canonical byte encoding of a message's fields, an RSA
//! signature binding that encoding to an author identity, and per-field
//! RSA encryption producing a transportable wire record.

mod clock;
pub mod codec;
pub mod message;
pub mod crypto;
pub mod text;
pub mod permissions;
pub mod user;
