//! A client of the one-shot dictation endpoint behind the Codex desktop application, and the
//! rules of a small REST server in front of it.
//!
//! The library decides and computes: which login and which proxy count, how an audio file is
//! named and typed, what is posted, what a reply means, and what the server accepts and answers.
//! What it needs to know of the machine (files, environment, network) comes in as arguments.

pub mod auth;
pub mod cli;
pub mod client;
pub mod error;
pub mod form;
pub mod http;
pub mod json;
pub mod laws;
pub mod media;
pub mod path;
pub mod promises;
pub mod proxy;
pub mod server;
pub mod silk;
pub mod text;

pub use crate::auth::{default_auth_file, CodexAuth};
pub use crate::client::{
    CodexAsrClient, CodexAsrClientBuilder, TranscribeOptions, Transcription, DEFAULT_ENDPOINT,
    DEFAULT_ORIGINATOR,
};
pub use crate::error::CodexAsrError;
pub use crate::media::infer_content_type;
pub use crate::proxy::resolve_proxy;
