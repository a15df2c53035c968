//! Verified core of a client SDK for the Weixin iLink Bot API.
pub mod text;
pub mod types;
pub mod credential;
pub mod encoding;
pub mod error;
pub mod aes_ecb;
pub mod media_type;
pub mod voice;
pub mod context;
pub mod crypto;
pub mod client;
pub mod upload;
pub mod send;
pub mod receive;
pub mod qr_login;
pub mod download;
pub mod store;
