//! A model of the TLS ClientHello that browser fingerprint profiles rewrite,
//! with the profiles themselves and the client configuration builder.
pub mod builder;
pub mod codec;
pub mod crypto;
pub mod enums;
pub mod fingerprint;
pub mod handshake;
pub mod patches;
