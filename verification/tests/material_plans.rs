use wolfssl::codes::{WOLFSSL_FILETYPE_ASN1, WOLFSSL_FILETYPE_PEM};
use wolfssl::errors::LoadRootCertificateError;
use wolfssl::material::{
    root_certificate_plan, secret_plan, FileFormat, RootCertificate, RootLoadPlan, Secret,
    SecretLoadPlan,
};
use wolfssl::text::is_c_representable;

#[test]
fn format_tags_match_the_engine() {
    assert_eq!(FileFormat::Asn1.native_code(), WOLFSSL_FILETYPE_ASN1);
    assert_eq!(FileFormat::Pem.native_code(), WOLFSSL_FILETYPE_PEM);
    assert_eq!(WOLFSSL_FILETYPE_ASN1, 2);
    assert_eq!(WOLFSSL_FILETYPE_PEM, 1);
}

#[test]
fn root_buffers_go_to_the_buffer_load() {
    let bytes = vec![1u8, 2, 3];
    assert_eq!(
        root_certificate_plan(RootCertificate::Asn1Buffer(bytes.clone()), false),
        Ok(RootLoadPlan::Buffer(bytes.clone(), FileFormat::Asn1))
    );
    assert_eq!(
        root_certificate_plan(RootCertificate::PemBuffer(bytes.clone()), true),
        Ok(RootLoadPlan::Buffer(bytes, FileFormat::Pem))
    );
}

#[test]
fn root_path_sets_file_or_directory_exclusively() {
    let path = String::from("/etc/ssl/certs");
    assert_eq!(
        root_certificate_plan(RootCertificate::PemFileOrDirectory(path.clone()), true),
        Ok(RootLoadPlan::DirectoryPath(path.clone()))
    );
    assert_eq!(
        root_certificate_plan(RootCertificate::PemFileOrDirectory(path.clone()), false),
        Ok(RootLoadPlan::FilePath(path))
    );
}

#[test]
fn root_path_with_interior_nul_is_a_path_error() {
    let path = String::from("/etc/\0ssl");
    assert_eq!(
        root_certificate_plan(RootCertificate::PemFileOrDirectory(path), false),
        Err(LoadRootCertificateError::Path)
    );
}

#[test]
fn secret_dispatch_matches_source_and_format() {
    let bytes = vec![9u8, 8, 7];
    let path = String::from("/srv/server.key");
    assert_eq!(
        secret_plan(Secret::Asn1Buffer(bytes.clone())),
        Some(SecretLoadPlan::Buffer(bytes.clone(), FileFormat::Asn1))
    );
    assert_eq!(
        secret_plan(Secret::PemBuffer(bytes.clone())),
        Some(SecretLoadPlan::Buffer(bytes, FileFormat::Pem))
    );
    assert_eq!(
        secret_plan(Secret::Asn1File(path.clone())),
        Some(SecretLoadPlan::File(path.clone(), FileFormat::Asn1))
    );
    assert_eq!(
        secret_plan(Secret::PemFile(path.clone())),
        Some(SecretLoadPlan::File(path, FileFormat::Pem))
    );
}

#[test]
fn secret_path_with_interior_nul_yields_nothing() {
    let path = String::from("bad\0path");
    assert_eq!(secret_plan(Secret::Asn1File(path.clone())), None);
    assert_eq!(secret_plan(Secret::PemFile(path)), None);
}

#[test]
fn c_representability_is_the_nul_check() {
    assert!(is_c_representable(""));
    assert!(is_c_representable("TLS13-CHACHA20-POLY1305-SHA256"));
    assert!(is_c_representable("/etc/ssl/certs"));
    assert!(!is_c_representable("\0"));
    assert!(!is_c_representable("a\0b"));
}
