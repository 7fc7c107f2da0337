//! Safe, verified access layer over a copy-on-write filesystem's subvolume
//! management facilities.
//!
//! The boundary to the kernel-side library is untyped and error-coded: every
//! call reports a numeric status code and fills out-parameters. This crate
//! holds the verified decision layer: it validates paths and identifiers,
//! translates status codes into a typed error taxonomy, and decodes raw
//! metadata structures into owned value types. The unverifiable part — the
//! actual foreign calls — lives outside the library and hands plain values
//! (codes, identifiers, byte strings) in and out.

use vstd::prelude::*;

pub mod common;
pub mod error;
pub mod qgroup;
pub mod subvolume;
pub mod sync;

verus! {

/// Result type used by this library.
pub type Result<T> = core::result::Result<T, error::BtrfsUtilError>;

} // verus!
