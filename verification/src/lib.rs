//! Versioned, salted secret hashing built on Argon2.
//!
//! The crate is organised leaf-first:
//!
//! * [`memset`] wipes buffers and provides [`memset::SecureBuffer`], the
//!   holder of raw secrets;
//! * [`params`] is the registry of versioned parameter sets;
//! * [`error`] is the error taxonomy shared by every operation;
//! * [`engine`] derives hashes, drawing a fresh salt or reusing a given one;
//! * [`codec`] encodes records and decodes verification requests;
//! * [`hasher`] ties them together into the create and verify operations;
//! * [`service`] and [`headers`] describe requests, replies and response
//!   headers as plain values, for the transport that carries them.
//!
//! Every executable function carries a contract that Verus proves of its
//! body. The few places where the crate calls into other crates are trusted
//! instead; the doc comment of each says what is taken on trust.

pub mod codec;
pub mod engine;
pub mod error;
pub mod hasher;
pub mod headers;
pub mod memset;
pub mod params;
pub mod service;
