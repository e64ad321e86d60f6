//! Server-side core of an age-verification wallet emulator: the session
//! store, the session lifecycle and the webhook payload that reports an
//! outcome to the relying party.

pub mod text;
pub mod ident;
pub mod session;
pub mod store;
pub mod webhook;
pub mod health;
pub mod lifecycle;
pub mod wallet_page;
