//! A burn-after-read secret store: a plain text is sealed under a key derived
//! from a passphrase, kept as a three-field record, and handed back exactly
//! once to a caller that presents the record's handle and the same passphrase.

pub mod crypto;
pub mod record;
pub mod api;
pub mod service;
pub mod store;
pub mod routing;
pub mod settings;
