//! Checks whether the credentials, the protocol and the model that a provider is saved with
//! complete one minimal request.
//!
//! The library decides: which model is asked for ([`models`]), which kind of request a
//! provider calls for ([`routes`]), where it goes and what it holds ([`urls`], [`bodies`],
//! [`messages`], [`codex`], [`gemini`]), what the answer means ([`stream`], [`exchange`]) and
//! what is reported ([`results`]). What holds of all of them together is proved in [`laws`].
pub mod bodies;
pub mod codex;
pub mod exchange;
pub mod gemini;
pub mod http;
pub mod json;
pub mod laws;
pub mod messages;
pub mod models;
pub mod results;
pub mod routes;
pub mod stream;
pub mod text;
pub mod types;
pub mod urls;

pub use types::{ModelCheckResult, ModelCheckService};
