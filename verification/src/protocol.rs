//! Protocol variants a context can be built for.

use vstd::prelude::*;

verus! {

/// The protocol variant selected when a context is created.
///
/// Secure renegotiation is meaningful only for the two DTLS 1.2 variants.
#[derive(Debug, Clone, Copy, PartialEq, Eq, Structural)]
pub enum WolfMethod {
    /// DTLS client, any supported version.
    DtlsClient,
    /// DTLS 1.2 client.
    DtlsClientV1_2,
    /// DTLS server, any supported version.
    DtlsServer,
    /// DTLS 1.2 server.
    DtlsServerV1_2,
    /// TLS client.
    TlsClient,
    /// TLS server.
    TlsServer,
}

impl WolfMethod {
    /// Whether this variant is one of the two DTLS 1.2 variants.
    pub open spec fn spec_is_dtls_v1_2(self) -> bool {
        self == WolfMethod::DtlsClientV1_2 || self == WolfMethod::DtlsServerV1_2
    }

    /// Whether this variant is one of the two DTLS 1.2 variants, the only
    /// ones for which secure renegotiation is enabled.
    pub fn is_dtls_v1_2(self) -> (b: bool)
        ensures
            b == self.spec_is_dtls_v1_2(),
    {
        matches!(self, WolfMethod::DtlsClientV1_2 | WolfMethod::DtlsServerV1_2)
    }
}

} // verus!
