//! Account brokering for a desktop session: the sign-in handshake, the token
//! lifecycle and the registry of linked accounts.

pub mod account;
pub mod assoc;
pub mod auth;
pub mod callback;
pub mod capability;
pub mod config;
pub mod credential;
pub mod dbus;
pub mod error;
pub mod identity;
pub mod interface;
pub mod outside;
pub mod pending;
pub mod provider;
pub mod services;
pub mod storage;
pub mod text;
pub mod time;
