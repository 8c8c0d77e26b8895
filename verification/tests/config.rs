use oci_client_js::config::{
    select_platform, Certificate, CertificateEncoding, ClientConfig, ClientProtocol,
    NativeProtocol, PlatformFilter, PlatformTarget,
};
use oci_client_js::manifest::{ManifestEntry, PlatformSpec};

fn empty_config() -> ClientConfig {
    ClientConfig {
        protocol: None,
        https_except_registries: None,
        accept_invalid_certificates: None,
        use_monolithic_push: None,
        extra_root_certificates: None,
        tls_certs_only: None,
        max_concurrent_upload: None,
        max_concurrent_download: None,
        default_token_expiration_secs: None,
        read_timeout_ms: None,
        connect_timeout_ms: None,
        https_proxy: None,
        http_proxy: None,
        no_proxy: None,
        platform: None,
    }
}

#[test]
fn empty_config_keeps_outside_defaults() {
    let s = empty_config().to_native();
    let d = oci_client::client::ClientConfig::default();
    assert_eq!(s.protocol, NativeProtocol::Https);
    assert_eq!(d.protocol, oci_client::client::ClientProtocol::Https);
    assert_eq!(s.accept_invalid_certificates, d.accept_invalid_certificates);
    assert_eq!(s.use_monolithic_push, d.use_monolithic_push);
    assert_eq!(s.max_concurrent_upload, d.max_concurrent_upload);
    assert_eq!(s.max_concurrent_download, d.max_concurrent_download);
    assert_eq!(s.default_token_expiration_secs, d.default_token_expiration_secs);
    assert_eq!(s.max_concurrent_upload, 16);
    assert_eq!(s.max_concurrent_download, 16);
    assert_eq!(s.default_token_expiration_secs, 60);
    assert!(s.extra_root_certificates.is_empty() && d.extra_root_certificates.is_empty());
    assert!(s.tls_certs_only.is_empty() && d.tls_certs_only.is_empty());
    assert!(s.read_timeout_ms.is_none() && d.read_timeout.is_none());
    assert!(s.connect_timeout_ms.is_none() && d.connect_timeout.is_none());
    assert!(s.https_proxy.is_none() && s.http_proxy.is_none() && s.no_proxy.is_none());
    assert!(s.platform.is_none());
}

#[test]
fn set_options_replace_defaults() {
    let cert = Certificate { encoding: CertificateEncoding::Pem, data: vec![1, 2, 3] };
    let mut c = empty_config();
    c.protocol = Some(ClientProtocol::Http);
    c.accept_invalid_certificates = Some(true);
    c.use_monolithic_push = Some(true);
    c.extra_root_certificates = Some(vec![cert.clone()]);
    c.tls_certs_only = Some(vec![cert.clone(), cert.clone()]);
    c.max_concurrent_upload = Some(3);
    c.max_concurrent_download = Some(4);
    c.default_token_expiration_secs = Some(5);
    c.read_timeout_ms = Some(1500);
    c.connect_timeout_ms = Some(250);
    c.https_proxy = Some("https://proxy".to_string());
    c.http_proxy = Some("http://proxy".to_string());
    c.no_proxy = Some("localhost".to_string());
    let s = c.to_native();
    assert_eq!(s.protocol, NativeProtocol::Http);
    assert!(s.accept_invalid_certificates);
    assert!(s.use_monolithic_push);
    assert_eq!(s.extra_root_certificates, vec![cert.clone()]);
    assert_eq!(s.tls_certs_only, vec![cert.clone(), cert]);
    assert_eq!(s.max_concurrent_upload, 3);
    assert_eq!(s.max_concurrent_download, 4);
    assert_eq!(s.default_token_expiration_secs, 5);
    assert_eq!(s.read_timeout_ms, Some(1500));
    assert_eq!(s.connect_timeout_ms, Some(250));
    assert_eq!(s.https_proxy.as_deref(), Some("https://proxy"));
    assert_eq!(s.http_proxy.as_deref(), Some("http://proxy"));
    assert_eq!(s.no_proxy.as_deref(), Some("localhost"));
}

#[test]
fn https_except_takes_its_registries() {
    let mut c = empty_config();
    c.protocol = Some(ClientProtocol::HttpsExcept);
    assert_eq!(c.to_native().protocol, NativeProtocol::HttpsExcept(vec![]));
    c.https_except_registries = Some(vec!["localhost:5000".to_string()]);
    assert_eq!(
        c.to_native().protocol,
        NativeProtocol::HttpsExcept(vec!["localhost:5000".to_string()])
    );
    let mut https = empty_config();
    https.protocol = Some(ClientProtocol::Https);
    https.https_except_registries = Some(vec!["ignored".to_string()]);
    assert_eq!(https.to_native().protocol, NativeProtocol::Https);
}

#[test]
fn platform_names_follow_the_outside_spelling() {
    let mut c = empty_config();
    c.platform = Some(PlatformFilter {
        os: "linux".to_string(),
        architecture: "armbe".to_string(),
        variant: Some("v7".to_string()),
    });
    let t = c.to_native().platform.expect("a platform target");
    assert_eq!(t.os, "linux");
    assert_eq!(t.architecture, "arm64be");
    assert_eq!(oci_spec::image::Arch::from("armbe").to_string(), "arm64be");
    assert_eq!(t.variant.as_deref(), Some("v7"));
    c.platform = Some(PlatformFilter {
        os: "plan10".to_string(),
        architecture: "amd64".to_string(),
        variant: None,
    });
    let t = c.to_native().platform.expect("a platform target");
    assert_eq!(t.os, "plan10");
    assert_eq!(t.architecture, "amd64");
}

fn entry(digest: &str, platform: Option<(&str, &str, Option<&str>)>) -> ManifestEntry {
    ManifestEntry {
        media_type: "application/vnd.oci.image.manifest.v1+json".to_string(),
        digest: digest.to_string(),
        size: 10,
        platform: platform.map(|(os, arch, variant)| PlatformSpec {
            architecture: arch.to_string(),
            os: os.to_string(),
            os_version: None,
            os_features: None,
            variant: variant.map(|v| v.to_string()),
            features: None,
        }),
        annotations: None,
        artifact_type: None,
    }
}

fn target(os: &str, arch: &str, variant: Option<&str>) -> PlatformTarget {
    PlatformTarget {
        os: os.to_string(),
        architecture: arch.to_string(),
        variant: variant.map(|v| v.to_string()),
    }
}

#[test]
fn first_matching_platform_is_selected() {
    let entries = vec![
        entry("sha256:none", None),
        entry("sha256:amd", Some(("linux", "amd64", None))),
        entry("sha256:arm6", Some(("linux", "arm", Some("v6")))),
        entry("sha256:arm7", Some(("linux", "arm", Some("v7")))),
        entry("sha256:arm7b", Some(("linux", "arm", Some("v7")))),
    ];
    assert_eq!(select_platform(&entries, &target("linux", "amd64", None)).as_deref(), Some("sha256:amd"));
    assert_eq!(select_platform(&entries, &target("linux", "arm", None)).as_deref(), Some("sha256:arm6"));
    assert_eq!(
        select_platform(&entries, &target("linux", "arm", Some("v7"))).as_deref(),
        Some("sha256:arm7")
    );
    assert_eq!(select_platform(&entries, &target("linux", "arm", Some("v8"))), None);
    assert_eq!(select_platform(&entries, &target("windows", "amd64", None)), None);
    assert_eq!(select_platform(&[].to_vec(), &target("linux", "amd64", None)), None);
}
