//! Status codes and format tags of the native TLS/DTLS engine.
//!
//! The engine reports every outcome as a signed numeric code. These are the
//! values its headers document for the calls this layer makes; the error
//! translation in this crate is stated against them.

use vstd::prelude::*;

verus! {

/// The engine's marker for a call that succeeded.
pub const WOLFSSL_SUCCESS: i32 = 1;

/// Diagnostic code: a mutex operation inside the engine failed.
pub const BAD_MUTEX_E: i32 = -106;

/// Diagnostic code: the engine's cryptographic subsystem failed to initialize.
pub const WC_INIT_E: i32 = -228;

/// Format tag the engine expects for ASN.1 (DER) encoded material.
pub const WOLFSSL_FILETYPE_ASN1: i32 = 2;

/// Format tag the engine expects for PEM encoded material.
pub const WOLFSSL_FILETYPE_PEM: i32 = 1;

} // verus!
