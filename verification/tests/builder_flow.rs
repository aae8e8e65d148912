use wolfssl::codes::WOLFSSL_SUCCESS;
use wolfssl::context::WolfContextBuilder;
use wolfssl::errors::LoadRootCertificateError;
use wolfssl::protocol::WolfMethod;

const ALL_METHODS: [WolfMethod; 6] = [
    WolfMethod::DtlsClient,
    WolfMethod::DtlsClientV1_2,
    WolfMethod::DtlsServer,
    WolfMethod::DtlsServerV1_2,
    WolfMethod::TlsClient,
    WolfMethod::TlsServer,
];

#[test]
fn build_keeps_method_for_every_variant() {
    for (i, method) in ALL_METHODS.iter().enumerate() {
        let handle = i as u64;
        let context = WolfContextBuilder::new(*method, Some(handle))
            .unwrap()
            .build();
        assert_eq!(context.method(), *method);
    }
}

#[test]
fn new_fails_exactly_on_allocation_failure() {
    assert!(WolfContextBuilder::new(WolfMethod::TlsServer, None::<u64>).is_none());
    assert!(WolfContextBuilder::new(WolfMethod::TlsServer, Some(3u64)).is_some());
}

#[test]
fn renegotiation_is_a_noop_off_dtls_1_2() {
    // Succeeds and leaves the builder unchanged whatever the engine would
    // have said, and whatever was configured before.
    for method in [WolfMethod::TlsClient, WolfMethod::TlsServer, WolfMethod::DtlsClient, WolfMethod::DtlsServer] {
        let builder = WolfContextBuilder::new(method, Some(4u64))
            .unwrap()
            .with_cipher_list(WOLFSSL_SUCCESS)
            .unwrap();
        let builder = builder.with_secure_renegotiation(None).unwrap();
        let builder = builder.with_secure_renegotiation(Some(0)).unwrap();
        assert_eq!(builder.method(), method);
    }
}

#[test]
fn renegotiation_fails_on_dtls_1_2_rejection() {
    let builder = WolfContextBuilder::new(WolfMethod::DtlsServerV1_2, Some(4u64)).unwrap();
    assert!(builder.with_secure_renegotiation(Some(0)).is_none());
    let builder = WolfContextBuilder::new(WolfMethod::DtlsClientV1_2, Some(4u64)).unwrap();
    assert!(builder.with_secure_renegotiation(None).is_none());
}

#[test]
fn root_certificate_failure_carries_the_native_code() {
    let builder = WolfContextBuilder::new(WolfMethod::TlsClient, Some(5u64)).unwrap();
    match builder.with_root_certificate(-188) {
        Err(LoadRootCertificateError::Native(code)) => assert_eq!(code, -188),
        _ => panic!("expected the native diagnostic to be carried"),
    }
}

#[test]
fn configuration_rejections_yield_nothing() {
    let builder = WolfContextBuilder::new(WolfMethod::TlsClient, Some(6u64)).unwrap();
    assert!(builder.with_cipher_list(0).is_none());
    let builder = WolfContextBuilder::new(WolfMethod::TlsClient, Some(6u64)).unwrap();
    assert!(builder.with_certificate(-1).is_none());
    let builder = WolfContextBuilder::new(WolfMethod::TlsClient, Some(6u64)).unwrap();
    assert!(builder.with_private_key(-1).is_none());
}

#[test]
fn new_session_yields_some_exactly_on_allocation() {
    let context = WolfContextBuilder::new(WolfMethod::DtlsClient, Some(7u64))
        .unwrap()
        .build();

    let session = context.new_session(7u64, Some(11u64)).unwrap();
    assert_eq!(session.context().method(), WolfMethod::DtlsClient);

    assert!(context.new_session(7u64, None::<u64>).is_none());
}
