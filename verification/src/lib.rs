//! Core of a small desktop tool that mails PDF files to a fixed recipient.
//!
//! Two things here have rules worth stating exactly. One is the settings
//! store, which keeps the credentials of the mail account encrypted at
//! rest: [`key`] derives the key, [`cipher`] is the boundary to the cipher
//! and to base64, [`config`] seals and opens the stored document. The other
//! is the outbound mail pipeline: [`attachment`] holds the policy on count
//! and names, [`transport`] chooses the connection, [`email`] decides on a
//! request and lays out the message. [`app`] is the state of the user
//! interface and the rules by which it changes; [`path`] is how paths are
//! carried, and [`text`] holds the string helpers that the rest shares.
//!
//! The library reads no file and opens no connection. Whoever uses it does
//! that, and tells the library what came of it.

pub mod app;
pub mod attachment;
pub mod cipher;
pub mod config;
pub mod email;
pub mod key;
pub mod path;
pub mod text;
pub mod transport;
