//! Core logic of a purchase-vault client: paging through a remote catalog,
//! flattening each entry's per-platform download shapes, and running one
//! signed download, step by step, against contracts.
//!
//! All remote I/O is left to the caller: the fetch and download types are
//! state machines that say which request to make next and take each
//! response back, so every decision along both pipelines is verified here
//! while the HTTP calls and the file write stay outside.

pub mod catalog;
pub mod download;
pub mod fetch;
pub mod json;
pub mod session;
pub mod text;
