//! Core logic of a Solana wallet adapter and its front-end templates:
//! clusters and the cluster store, notifications and application state,
//! wallet error codes, explorer links, QR-code images, and the partial
//! Anchor IDL reader.

pub mod chains;
pub mod text;
pub mod percent;
pub mod idl;
pub mod notification;
pub mod app_state;
pub mod cluster_store;
pub mod formatting;
pub mod errors;
pub mod provider;
pub mod assets;
pub mod qr;
pub mod rpc;
