use oci_client_js::errors::{
    convert_envelope, read_stamped_error, uncoercible_error, NativeBindingError,
    NativeDistributionError, NativeDistributionErrorKind, NativeOciError, OciBindingError,
    OciDistributionError, OciErrorCode, ParseError, ParseErrorKind,
};
use oci_client::ParseError as P;
use oci_client_js::reference::parse_reference;

fn native(kind: NativeDistributionErrorKind, display: &str) -> NativeDistributionError {
    NativeDistributionError { kind, display: display.to_string() }
}

#[test]
fn unit_variants_keep_the_display_text() {
    let e = OciDistributionError::from_native(&native(
        NativeDistributionErrorKind::PullNoLayersError,
        "No layers to pull",
    ));
    match e {
        OciDistributionError::PullNoLayersError { message, cause } => {
            assert_eq!(message, "No layers to pull");
            assert!(cause.is_none());
        }
        other => panic!("wrong variant {:?}", other),
    }
    let e = OciDistributionError::from_native(&native(
        NativeDistributionErrorKind::IoError,
        "permission denied",
    ));
    assert!(matches!(e, OciDistributionError::IoError { ref message, cause: None } if message == "permission denied"));
}

#[test]
fn server_error_keeps_its_fields() {
    let e = OciDistributionError::from_native(&native(
        NativeDistributionErrorKind::ServerError {
            code: 503,
            url: "https://r/v2/".to_string(),
            message: "busy".to_string(),
        },
        "Server error: url https://r/v2/, code: 503, message: busy",
    ));
    match e {
        OciDistributionError::ServerError { message, cause, status_code, url, server_message } => {
            assert_eq!(message, "Server error: url https://r/v2/, code: 503, message: busy");
            assert!(cause.is_none());
            assert_eq!(status_code, 503);
            assert_eq!(url, "https://r/v2/");
            assert_eq!(server_message, "busy");
        }
        other => panic!("wrong variant {:?}", other),
    }
}

#[test]
fn image_and_unauthorized_keep_their_fields() {
    let e = OciDistributionError::from_native(&native(
        NativeDistributionErrorKind::ImageManifestNotFoundError("img".to_string()),
        "Image manifest not found: img",
    ));
    assert!(matches!(e, OciDistributionError::ImageManifestNotFoundError { ref image, .. } if image == "img"));
    let e = OciDistributionError::from_native(&native(
        NativeDistributionErrorKind::UnauthorizedError { url: "https://r".to_string() },
        "Not authorized: url https://r",
    ));
    assert!(matches!(e, OciDistributionError::UnauthorizedError { ref url, ref message, .. } if url == "https://r" && message == "Not authorized: url https://r"));
}

#[test]
fn registry_error_converts_its_envelope() {
    let errors = vec![
        NativeOciError {
            code: OciErrorCode::Unauthorized,
            message: "authentication required".to_string(),
            detail: Some("[{\"Type\":\"repository\"}]".to_string()),
        },
        NativeOciError {
            code: OciErrorCode::Other("ARTIFACT_LOCKED".to_string()),
            message: "artifact is locked".to_string(),
            detail: None,
        },
    ];
    let e = OciDistributionError::from_native(&native(
        NativeDistributionErrorKind::RegistryError { url: "https://r".to_string(), errors },
        "Registry error",
    ));
    match e {
        OciDistributionError::RegistryError { url, errors, .. } => {
            assert_eq!(url, "https://r");
            assert_eq!(errors.len(), 2);
            assert_eq!(errors[0].code, OciErrorCode::Unauthorized);
            assert_eq!(errors[0].message, "authentication required");
            assert_eq!(errors[0].detail, "[{\"Type\":\"repository\"}]");
            assert_eq!(errors[1].code, OciErrorCode::Other("ARTIFACT_LOCKED".to_string()));
            assert_eq!(errors[1].detail, "");
        }
        other => panic!("wrong variant {:?}", other),
    }
}

#[test]
fn envelope_of_no_errors_is_empty() {
    assert!(convert_envelope(&vec![]).is_empty());
}

#[test]
fn parse_errors_take_the_outside_texts() {
    let cases = [
        (ParseErrorKind::DigestInvalidFormat, P::DigestInvalidFormat),
        (ParseErrorKind::DigestInvalidLength, P::DigestInvalidLength),
        (ParseErrorKind::DigestUnsupported, P::DigestUnsupported),
        (ParseErrorKind::NameContainsUppercase, P::NameContainsUppercase),
        (ParseErrorKind::NameEmpty, P::NameEmpty),
        (ParseErrorKind::NameTooLong, P::NameTooLong),
        (ParseErrorKind::ReferenceInvalidFormat, P::ReferenceInvalidFormat),
        (ParseErrorKind::TagInvalidFormat, P::TagInvalidFormat),
    ];
    for (kind, outside) in cases {
        let e = ParseError::from_native(kind);
        let (message, cause) = match e {
            ParseError::DigestInvalidFormat { message, cause }
            | ParseError::DigestInvalidLength { message, cause }
            | ParseError::DigestUnsupported { message, cause }
            | ParseError::NameContainsUppercase { message, cause }
            | ParseError::NameEmpty { message, cause }
            | ParseError::NameTooLong { message, cause }
            | ParseError::ReferenceInvalidFormat { message, cause }
            | ParseError::TagInvalidFormat { message, cause } => (message, cause),
        };
        assert_eq!(message, outside.to_string());
        assert!(cause.is_none());
        assert_eq!(NativeBindingError::Parse(kind).display(), outside.to_string());
    }
    assert!(matches!(ParseError::from_native(ParseErrorKind::NameTooLong), ParseError::NameTooLong { ref message, .. } if message == "repository name must not be more than 255 characters"));
}

#[test]
fn references_parse_or_name_their_reason() {
    assert!(parse_reference("docker.io/library/hello-world:latest").is_ok());
    assert!(parse_reference("ghcr.io/org/app@sha256:0123456789abcdef0123456789abcdef0123456789abcdef0123456789abcdef").is_ok());
    match parse_reference("") {
        Err(NativeBindingError::Parse(k)) => assert_eq!(k, ParseErrorKind::NameEmpty),
        other => panic!("unexpected {:?}", other.map(|r| r.whole())),
    }
    match parse_reference("docker.io/Library/hello") {
        Err(NativeBindingError::Parse(k)) => assert_eq!(k, ParseErrorKind::ReferenceInvalidFormat),
        other => panic!("unexpected {:?}", other.map(|r| r.whole())),
    }
    let long = format!("{}/x", "a".repeat(300));
    let outside = long.parse::<oci_client::Reference>();
    match parse_reference(&long) {
        Err(NativeBindingError::Parse(k)) => {
            assert_eq!(NativeBindingError::Parse(k).display(), outside.unwrap_err().to_string())
        }
        other => panic!("unexpected {:?}", other.map(|r| r.whole())),
    }
    let outside = "docker.io/library/hello:bad tag".parse::<oci_client::Reference>();
    match parse_reference("docker.io/library/hello:bad tag") {
        Err(NativeBindingError::Parse(k)) => {
            assert_eq!(NativeBindingError::Parse(k).display(), outside.unwrap_err().to_string())
        }
        other => panic!("unexpected {:?}", other.map(|r| r.whole())),
    }
}

#[test]
fn binding_errors_convert_by_kind() {
    let d = NativeBindingError::Distribution(native(
        NativeDistributionErrorKind::RegistryNoDigestError,
        "Registry did not return a digest header",
    ));
    assert_eq!(d.display(), "Registry did not return a digest header");
    assert!(matches!(
        OciBindingError::from_native(&d),
        OciBindingError::Distribution(OciDistributionError::RegistryNoDigestError { .. })
    ));
    let p = NativeBindingError::Parse(ParseErrorKind::TagInvalidFormat);
    assert_eq!(p.display(), "invalid tag format");
    assert!(matches!(
        OciBindingError::from_native(&p),
        OciBindingError::Parse(ParseError::TagInvalidFormat { .. })
    ));
}

fn generic_message(e: OciBindingError) -> String {
    match e {
        OciBindingError::Distribution(OciDistributionError::GenericError { message, cause: None }) => message,
        other => panic!("expected a generic error, got {:?}", other),
    }
}

#[test]
fn stamped_errors_read_back() {
    let dist = OciDistributionError::PushNoDataError { message: "m".to_string(), cause: None };
    let parse = ParseError::NameEmpty { message: "n".to_string(), cause: None };
    assert!(matches!(
        read_stamped_error(Some("m".to_string()), true, Some(dist), Some(parse)),
        OciBindingError::Distribution(OciDistributionError::PushNoDataError { .. })
    ));
    let parse = ParseError::NameEmpty { message: "n".to_string(), cause: None };
    assert!(matches!(
        read_stamped_error(None, true, None, Some(parse)),
        OciBindingError::Parse(ParseError::NameEmpty { .. })
    ));
    assert_eq!(generic_message(read_stamped_error(Some("plain".to_string()), false, None, None)), "plain");
    assert_eq!(generic_message(read_stamped_error(None, false, None, None)), "");
    assert_eq!(generic_message(read_stamped_error(Some("odd".to_string()), true, None, None)), "odd");
}

#[test]
fn non_objects_read_as_a_generic_error() {
    match uncoercible_error() {
        OciDistributionError::GenericError { message, cause: None } => {
            assert_eq!(message, "unable to coerce object to OciDistributionError")
        }
        other => panic!("unexpected {:?}", other),
    }
}

#[test]
fn exposed_message_is_the_display_text() {
    let errors = [
        NativeBindingError::Distribution(native(
            NativeDistributionErrorKind::GenericError,
            "Generic error: Some(\"x\")",
        )),
        NativeBindingError::Parse(ParseErrorKind::DigestUnsupported),
    ];
    for e in errors {
        let shown = e.display();
        let message = match OciBindingError::from_native(&e) {
            OciBindingError::Distribution(OciDistributionError::GenericError { message, .. }) => message,
            OciBindingError::Parse(ParseError::DigestUnsupported { message, .. }) => message,
            other => panic!("unexpected {:?}", other),
        };
        assert_eq!(message, shown);
    }
}
