//! Typed error taxonomy over the engine's numeric outcomes.
//!
//! Global initialization and cleanup each document a small, closed set of
//! return codes; any other code is a violation of that contract, so the
//! translation functions here admit only the documented codes. Loading root
//! trust material reports an arbitrary diagnostic code, carried verbatim.

use vstd::prelude::*;

use crate::codes::{BAD_MUTEX_E, WC_INIT_E, WOLFSSL_SUCCESS};

verus! {

/// Failure of the engine's global initialization.
#[derive(Debug, Clone, Copy, PartialEq, Eq, Structural)]
pub enum WolfInitError {
    /// The engine reported a mutex failure (`BAD_MUTEX_E`).
    Mutex,
    /// The engine's cryptographic subsystem failed to start (`WC_INIT_E`).
    WolfCrypt,
}

/// Failure of the engine's global cleanup.
#[derive(Debug, Clone, Copy, PartialEq, Eq, Structural)]
pub enum WolfCleanupError {
    /// The engine reported a mutex failure (`BAD_MUTEX_E`).
    Mutex,
}

/// Failure while loading root certificate trust material.
#[derive(Debug, Clone, Copy, PartialEq, Eq, Structural)]
pub enum LoadRootCertificateError {
    /// The path could not be represented in the text form the engine requires.
    Path,
    /// The engine rejected the material; the native diagnostic code is carried.
    Native(i32),
}

/// The codes the engine documents for global initialization.
pub open spec fn init_code_documented(code: i32) -> bool {
    code == WOLFSSL_SUCCESS || code == BAD_MUTEX_E || code == WC_INIT_E
}

/// The codes the engine documents for global cleanup.
pub open spec fn cleanup_code_documented(code: i32) -> bool {
    code == WOLFSSL_SUCCESS || code == BAD_MUTEX_E
}

/// How a documented initialization code is read as a typed outcome.
pub open spec fn spec_init_result(code: i32) -> Result<(), WolfInitError> {
    if code == WOLFSSL_SUCCESS {
        Ok(())
    } else if code == BAD_MUTEX_E {
        Err(WolfInitError::Mutex)
    } else {
        Err(WolfInitError::WolfCrypt)
    }
}

/// How a documented cleanup code is read as a typed outcome.
pub open spec fn spec_cleanup_result(code: i32) -> Result<(), WolfCleanupError> {
    if code == WOLFSSL_SUCCESS {
        Ok(())
    } else {
        Err(WolfCleanupError::Mutex)
    }
}

/// Whether an initialization code falls inside the documented set; a code
/// outside it is a contract violation that the caller must treat as fatal.
pub fn is_init_code_documented(code: i32) -> (b: bool)
    ensures
        b == init_code_documented(code),
{
    code == WOLFSSL_SUCCESS || code == BAD_MUTEX_E || code == WC_INIT_E
}

/// Whether a cleanup code falls inside the documented set.
pub fn is_cleanup_code_documented(code: i32) -> (b: bool)
    ensures
        b == cleanup_code_documented(code),
{
    code == WOLFSSL_SUCCESS || code == BAD_MUTEX_E
}

} // verus!
