//! Trust material and secrets handed to the engine, and the dispatch that
//! decides which native load operation each one requires.
//!
//! The engine offers a buffer-load and a file-load operation, each tagged
//! with the material's format; root trust material may also come from a
//! directory of certificates. The functions here turn a tagged input into
//! the one native call that must be made — a load plan — or into the typed
//! failure when the input's path cannot be represented as C text. A plan
//! names the file argument or the directory argument exclusively, never both.

use vstd::prelude::*;

use crate::codes::{WOLFSSL_FILETYPE_ASN1, WOLFSSL_FILETYPE_PEM};
use crate::errors::LoadRootCertificateError;
use crate::text::{is_c_representable, text_c_representable};

verus! {

/// Encoding of certificate or key material.
#[derive(Debug, Clone, Copy, PartialEq, Eq, Structural)]
pub enum FileFormat {
    /// ASN.1 (DER) encoding.
    Asn1,
    /// PEM encoding.
    Pem,
}

impl FileFormat {
    /// The numeric format tag the engine expects for this encoding.
    pub open spec fn spec_native_code(self) -> i32 {
        if self == FileFormat::Asn1 {
            WOLFSSL_FILETYPE_ASN1
        } else {
            WOLFSSL_FILETYPE_PEM
        }
    }

    /// Returns the numeric format tag the engine expects for this encoding.
    pub fn native_code(self) -> (c: i32)
        ensures
            c == self.spec_native_code(),
    {
        match self {
            FileFormat::Asn1 => WOLFSSL_FILETYPE_ASN1,
            FileFormat::Pem => WOLFSSL_FILETYPE_PEM,
        }
    }
}

/// Root certificate trust material, tagged with its encoding and source.
#[derive(Debug, Clone, PartialEq, Eq)]
pub enum RootCertificate {
    /// ASN.1 (DER) bytes held in memory.
    Asn1Buffer(Vec<u8>),
    /// PEM bytes held in memory.
    PemBuffer(Vec<u8>),
    /// Path to a PEM file, or to a directory of PEM files.
    PemFileOrDirectory(String),
}

/// A certificate or private key, tagged with its encoding and source.
#[derive(Debug, Clone, PartialEq, Eq)]
pub enum Secret {
    /// ASN.1 (DER) bytes held in memory.
    Asn1Buffer(Vec<u8>),
    /// Path to an ASN.1 (DER) file.
    Asn1File(String),
    /// PEM bytes held in memory.
    PemBuffer(Vec<u8>),
    /// Path to a PEM file.
    PemFile(String),
}

/// The one native call that loading given root trust material requires.
#[derive(Debug, Clone, PartialEq, Eq)]
pub enum RootLoadPlan {
    /// Load from the buffer, tagged with the format.
    Buffer(Vec<u8>, FileFormat),
    /// Load locations with the file argument set and the directory argument empty.
    FilePath(String),
    /// Load locations with the directory argument set and the file argument empty.
    DirectoryPath(String),
}

/// The one native call that loading a given secret requires.
#[derive(Debug, Clone, PartialEq, Eq)]
pub enum SecretLoadPlan {
    /// Load from the buffer, tagged with the format.
    Buffer(Vec<u8>, FileFormat),
    /// Load from the file at the path, tagged with the format.
    File(String, FileFormat),
}

/// How root trust material dispatches to a load plan. `is_dir` tells whether
/// the path names a directory; it matters only for the path variant.
pub open spec fn spec_root_certificate_plan(root: RootCertificate, is_dir: bool) -> Result<
    RootLoadPlan,
    LoadRootCertificateError,
> {
    match root {
        RootCertificate::Asn1Buffer(buf) => Ok(RootLoadPlan::Buffer(buf, FileFormat::Asn1)),
        RootCertificate::PemBuffer(buf) => Ok(RootLoadPlan::Buffer(buf, FileFormat::Pem)),
        RootCertificate::PemFileOrDirectory(path) => if !text_c_representable(path@) {
            Err(LoadRootCertificateError::Path)
        } else if is_dir {
            Ok(RootLoadPlan::DirectoryPath(path))
        } else {
            Ok(RootLoadPlan::FilePath(path))
        },
    }
}

/// Decides which native call loads the given root trust material: buffers go
/// to the buffer-load operation with their format tag; a path goes to the
/// location-load operation as a file or as a directory, exclusively. Fails
/// exactly when the path cannot be represented as C text.
pub fn root_certificate_plan(root: RootCertificate, is_dir: bool) -> (r: Result<
    RootLoadPlan,
    LoadRootCertificateError,
>)
    ensures
        r == spec_root_certificate_plan(root, is_dir),
{
    match root {
        RootCertificate::Asn1Buffer(buf) => Ok(RootLoadPlan::Buffer(buf, FileFormat::Asn1)),
        RootCertificate::PemBuffer(buf) => Ok(RootLoadPlan::Buffer(buf, FileFormat::Pem)),
        RootCertificate::PemFileOrDirectory(path) => {
            if !is_c_representable(path.as_str()) {
                Err(LoadRootCertificateError::Path)
            } else if is_dir {
                Ok(RootLoadPlan::DirectoryPath(path))
            } else {
                Ok(RootLoadPlan::FilePath(path))
            }
        },
    }
}

/// How a secret dispatches to a load plan.
pub open spec fn spec_secret_plan(secret: Secret) -> Option<SecretLoadPlan> {
    match secret {
        Secret::Asn1Buffer(buf) => Some(SecretLoadPlan::Buffer(buf, FileFormat::Asn1)),
        Secret::Asn1File(path) => if text_c_representable(path@) {
            Some(SecretLoadPlan::File(path, FileFormat::Asn1))
        } else {
            None
        },
        Secret::PemBuffer(buf) => Some(SecretLoadPlan::Buffer(buf, FileFormat::Pem)),
        Secret::PemFile(path) => if text_c_representable(path@) {
            Some(SecretLoadPlan::File(path, FileFormat::Pem))
        } else {
            None
        },
    }
}

/// Decides which native call loads the given secret, for certificate and
/// private-key loading alike: buffers go to the buffer-load operation and
/// paths to the file-load operation, each with the matching format tag.
/// Yields nothing exactly when a path cannot be represented as C text.
pub fn secret_plan(secret: Secret) -> (r: Option<SecretLoadPlan>)
    ensures
        r == spec_secret_plan(secret),
{
    match secret {
        Secret::Asn1Buffer(buf) => Some(SecretLoadPlan::Buffer(buf, FileFormat::Asn1)),
        Secret::Asn1File(path) => {
            if is_c_representable(path.as_str()) {
                Some(SecretLoadPlan::File(path, FileFormat::Asn1))
            } else {
                None
            }
        },
        Secret::PemBuffer(buf) => Some(SecretLoadPlan::Buffer(buf, FileFormat::Pem)),
        Secret::PemFile(path) => {
            if is_c_representable(path.as_str()) {
                Some(SecretLoadPlan::File(path, FileFormat::Pem))
            } else {
                None
            }
        },
    }
}

} // verus!
