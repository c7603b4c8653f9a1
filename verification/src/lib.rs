//! A typed codec for the `X-Registry-Auth` HTTP header: an opaque credential
//! payload carried on the wire as standard base64 text.

pub mod codec;
pub mod header;

pub use header::HeaderError;
pub use header::XRegistryAuth;
