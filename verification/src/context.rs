//! Staged construction of a context, and sessions derived from it.
//!
//! A context is configured step by step: each step consumes the builder and
//! yields it back only on success, so a caller cannot continue past a failed
//! step — a silently skipped trust or key step would be a security defect,
//! not a cosmetic one. The native handle a context wraps is opaque to this
//! layer: it is whatever token the glue that talks to the engine holds, so it
//! stands here as a type parameter. Each configuration step takes the
//! engine's numeric outcome for the call that the step's load plan named, and
//! translates it; the builder value itself never changes on success, because
//! all real mutation happens inside the engine.

use vstd::prelude::*;

use crate::codes::WOLFSSL_SUCCESS;
use crate::errors::LoadRootCertificateError;
use crate::protocol::WolfMethod;

verus! {

/// A finalized context: the protocol variant chosen at construction, and the
/// ownership token of the native context handle. Cloning clones the token,
/// which is how a context comes to be shared by several owners.
#[derive(Clone)]
pub struct WolfContext<H> {
    handle: H,
    method: WolfMethod,
}

/// A context under construction. Every configuration step consumes the
/// builder; only an explicit [`WolfContextBuilder::build`] makes a context.
pub struct WolfContextBuilder<H>(WolfContext<H>);

/// A per-connection session: its own native-handle token, plus a durable
/// clone of the parent context that keeps the context's handle alive for as
/// long as the session exists.
pub struct WolfSession<H, S> {
    ctx: WolfContext<H>,
    ssl: S,
}

impl<H> WolfContextBuilder<H> {
    /// The context this builder is staging.
    pub closed spec fn spec_context(self) -> WolfContext<H> {
        self.0
    }

    /// Begins building a context for `method`. `handle` is the engine's
    /// answer to the create-context call for that variant: absent exactly on
    /// native allocation failure, in which case there is nothing to build and
    /// no diagnostic code to carry. The builder stages a context carrying
    /// exactly the variant and the handle it was given: construction with no
    /// further configuration loses nothing.
    pub fn new(method: WolfMethod, handle: Option<H>) -> (r: Option<Self>)
        ensures
            r is Some <==> handle is Some,
            handle matches Some(h) ==> r matches Some(b) && {
                &&& b.spec_context().spec_method() == method
                &&& b.spec_context().spec_handle() == h
            },
    {
        match handle {
            Some(h) => Some(WolfContextBuilder(WolfContext { handle: h, method })),
            None => None,
        }
    }

    /// The protocol variant this builder was created for.
    pub fn method(&self) -> (m: WolfMethod)
        ensures
            m == self.spec_context().spec_method(),
    {
        self.0.method
    }

    /// The ownership token of the native handle under configuration; every
    /// native call a step's plan names is made through it.
    pub fn handle(&self) -> (h: &H)
        ensures
            *h == self.spec_context().spec_handle(),
    {
        &self.0.handle
    }

    /// Applies the engine's outcome of the root-trust load that
    /// [`crate::material::root_certificate_plan`] named. Success hands the
    /// builder back unchanged; any other code becomes the typed error
    /// carrying that diagnostic.
    pub fn with_root_certificate(self, code: i32) -> (r: Result<Self, LoadRootCertificateError>)
        ensures
            code == WOLFSSL_SUCCESS ==> r == Ok::<Self, LoadRootCertificateError>(self),
            code != WOLFSSL_SUCCESS ==> r == Err::<Self, LoadRootCertificateError>(
                LoadRootCertificateError::Native(code),
            ),
    {
        if code == WOLFSSL_SUCCESS {
            Ok(self)
        } else {
            Err(LoadRootCertificateError::Native(code))
        }
    }

    /// Applies the engine's outcome of setting the cipher-suite list.
    /// Success hands the builder back unchanged; rejection yields nothing —
    /// the engine gives no diagnostic this layer passes on.
    pub fn with_cipher_list(self, code: i32) -> (r: Option<Self>)
        ensures
            code == WOLFSSL_SUCCESS ==> r == Some(self),
            code != WOLFSSL_SUCCESS ==> r is None,
    {
        if code == WOLFSSL_SUCCESS {
            Some(self)
        } else {
            None
        }
    }

    /// Applies the engine's outcome of the certificate load that
    /// [`crate::material::secret_plan`] named.
    pub fn with_certificate(self, code: i32) -> (r: Option<Self>)
        ensures
            code == WOLFSSL_SUCCESS ==> r == Some(self),
            code != WOLFSSL_SUCCESS ==> r is None,
    {
        if code == WOLFSSL_SUCCESS {
            Some(self)
        } else {
            None
        }
    }

    /// Applies the engine's outcome of the private-key load that
    /// [`crate::material::secret_plan`] named.
    pub fn with_private_key(self, code: i32) -> (r: Option<Self>)
        ensures
            code == WOLFSSL_SUCCESS ==> r == Some(self),
            code != WOLFSSL_SUCCESS ==> r is None,
    {
        if code == WOLFSSL_SUCCESS {
            Some(self)
        } else {
            None
        }
    }

    /// Enables secure renegotiation, which is meaningful only for the two
    /// DTLS 1.2 variants. On any other variant this is a documented no-op
    /// that always succeeds with the builder unchanged, whatever `code`
    /// holds and whatever was configured before. On DTLS 1.2, `code` is the
    /// engine's outcome of the enable call.
    pub fn with_secure_renegotiation(self, code: Option<i32>) -> (r: Option<Self>)
        ensures
            !self.spec_context().spec_method().spec_is_dtls_v1_2() ==> r == Some(self),
            self.spec_context().spec_method().spec_is_dtls_v1_2() && code == Some(WOLFSSL_SUCCESS)
                ==> r == Some(self),
            self.spec_context().spec_method().spec_is_dtls_v1_2() && code != Some(WOLFSSL_SUCCESS)
                ==> r is None,
    {
        if !self.0.method.is_dtls_v1_2() {
            return Some(self);
        }
        match code {
            Some(c) => if c == WOLFSSL_SUCCESS {
                Some(self)
            } else {
                None
            },
            None => None,
        }
    }

    /// Finalizes the context. Cannot fail: every fallible configuration step
    /// already happened.
    pub fn build(self) -> (c: WolfContext<H>)
        ensures
            c == self.spec_context(),
    {
        self.0
    }
}

impl<H> WolfContext<H> {
    /// The protocol variant captured at construction.
    pub closed spec fn spec_method(self) -> WolfMethod {
        self.method
    }

    /// The ownership token of the native context handle.
    pub closed spec fn spec_handle(self) -> H {
        self.handle
    }

    /// Returns the protocol variant this context was built for. A pure
    /// accessor: no native call.
    pub fn method(&self) -> (m: WolfMethod)
        ensures
            m == self.spec_method(),
    {
        self.method
    }

    /// The ownership token of the native context handle.
    pub fn handle(&self) -> (h: &H)
        ensures
            *h == self.spec_handle(),
    {
        &self.handle
    }

    /// Derives a session from this context. `session_handle` is the engine's
    /// answer to the create-session call — absent exactly on native
    /// allocation failure, the only way this can yield nothing; no
    /// error-typed outcome exists. `context_keepalive` is a fresh token of
    /// this context's sharing group, which the session holds so the context's
    /// handle stays alive until the session itself is dropped.
    pub fn new_session<S>(&self, context_keepalive: H, session_handle: Option<S>) -> (r: Option<
        WolfSession<H, S>,
    >)
        ensures
            r is Some <==> session_handle is Some,
            session_handle matches Some(raw) ==> r matches Some(s) && {
                &&& s.spec_context().spec_method() == self.spec_method()
                &&& s.spec_context().spec_handle() == context_keepalive
                &&& s.spec_handle() == raw
            },
    {
        match session_handle {
            Some(ssl) => Some(
                WolfSession { ctx: WolfContext { handle: context_keepalive, method: self.method }, ssl },
            ),
            None => None,
        }
    }
}

impl<H, S> WolfSession<H, S> {
    /// The context clone this session holds.
    pub closed spec fn spec_context(self) -> WolfContext<H> {
        self.ctx
    }

    /// The ownership token of the native session handle.
    pub closed spec fn spec_handle(self) -> S {
        self.ssl
    }

    /// The parent context this session keeps alive.
    pub fn context(&self) -> (c: &WolfContext<H>)
        ensures
            *c == self.spec_context(),
    {
        &self.ctx
    }

    /// The ownership token of the native session handle.
    pub fn handle(&self) -> (h: &S)
        ensures
            *h == self.spec_handle(),
    {
        &self.ssl
    }
}

} // verus!
