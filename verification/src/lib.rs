//! A typed safety layer around a native TLS/DTLS engine.
//!
//! The engine itself is an external collaborator reached only from unverified
//! glue: it hands back opaque handles and signed numeric status codes. This
//! crate holds everything that can be wrong on this side of that boundary:
//! how a context is configured step by step and finalized, how sessions are
//! derived from it, how shared ownership of a native handle is counted so the
//! handle is released exactly once, and how numeric outcomes translate into a
//! typed error taxonomy. Each decision is a function from plain values to
//! plain values with a contract; the glue performs the native call between
//! the decision and the translation of its outcome.

use vstd::prelude::*;

pub mod codes;
pub mod context;
pub mod errors;
pub mod material;
pub mod protocol;
pub mod sharing;
pub mod text;

use crate::errors::{
    cleanup_code_documented, init_code_documented, spec_cleanup_result, spec_init_result,
    WolfCleanupError, WolfInitError,
};
use crate::codes::{BAD_MUTEX_E, WOLFSSL_SUCCESS};

verus! {

/// Reads the engine's global-initialization outcome as a typed result.
///
/// The engine documents exactly three codes for this call; any other code is
/// a fatal contract violation, which the caller must stop on rather than
/// translate, so it is excluded here.
pub fn wolf_init(code: i32) -> (r: Result<(), WolfInitError>)
    requires
        init_code_documented(code),
    ensures
        r == spec_init_result(code),
{
    if code == WOLFSSL_SUCCESS {
        Ok(())
    } else if code == BAD_MUTEX_E {
        Err(WolfInitError::Mutex)
    } else {
        Err(WolfInitError::WolfCrypt)
    }
}

/// Reads the engine's global-cleanup outcome as a typed result.
///
/// Mirrors [`wolf_init`]: only the two documented codes are admitted.
pub fn wolf_cleanup(code: i32) -> (r: Result<(), WolfCleanupError>)
    requires
        cleanup_code_documented(code),
    ensures
        r == spec_cleanup_result(code),
{
    if code == WOLFSSL_SUCCESS {
        Ok(())
    } else {
        Err(WolfCleanupError::Mutex)
    }
}

} // verus!
