//! A completion-callback bridge for an asynchronous native service, and the
//! cryptographic operations built on it.
//!
//! The asynchronous half (native entry points, trampolines, channels) runs
//! outside this library; everything that decides, decodes or correlates is
//! verified here.
pub mod codec;
pub mod registry;
pub mod callbacks;
pub mod crypto;
pub mod commands;
pub mod home;
