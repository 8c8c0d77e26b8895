//! The error types that the bindings expose, the plain form of the errors that
//! the outside client reports, and the conversion between the two.

use vstd::prelude::*;
use crate::json::{debug_shape_well_formed, debug_to_json, encodes_debug, spec_debug_to_json, JsonValue};

verus! {

// ---------------------------------------------------------------------------
// OCI error codes and registry errors
// ---------------------------------------------------------------------------

/// An error code of the OCI distribution specification.
#[derive(Debug, Clone, PartialEq)]
pub enum OciErrorCode {
    BlobUnknown,
    BlobUploadInvalid,
    BlobUploadUnknown,
    DigestInvalid,
    ManifestBlobUnknown,
    ManifestInvalid,
    ManifestUnknown,
    ManifestUnverified,
    NameInvalid,
    NameUnknown,
    NotFound,
    SizeInvalid,
    TagInvalid,
    Unauthorized,
    Denied,
    Unsupported,
    Toomanyrequests,
    Other(String),
}

/// `a` and `b` name the same error code.
pub open spec fn same_code(a: OciErrorCode, b: OciErrorCode) -> bool {
    match (a, b) {
        (OciErrorCode::Other(x), OciErrorCode::Other(y)) => x@ == y@,
        (OciErrorCode::BlobUnknown, OciErrorCode::BlobUnknown) => true,
        (OciErrorCode::BlobUploadInvalid, OciErrorCode::BlobUploadInvalid) => true,
        (OciErrorCode::BlobUploadUnknown, OciErrorCode::BlobUploadUnknown) => true,
        (OciErrorCode::DigestInvalid, OciErrorCode::DigestInvalid) => true,
        (OciErrorCode::ManifestBlobUnknown, OciErrorCode::ManifestBlobUnknown) => true,
        (OciErrorCode::ManifestInvalid, OciErrorCode::ManifestInvalid) => true,
        (OciErrorCode::ManifestUnknown, OciErrorCode::ManifestUnknown) => true,
        (OciErrorCode::ManifestUnverified, OciErrorCode::ManifestUnverified) => true,
        (OciErrorCode::NameInvalid, OciErrorCode::NameInvalid) => true,
        (OciErrorCode::NameUnknown, OciErrorCode::NameUnknown) => true,
        (OciErrorCode::NotFound, OciErrorCode::NotFound) => true,
        (OciErrorCode::SizeInvalid, OciErrorCode::SizeInvalid) => true,
        (OciErrorCode::TagInvalid, OciErrorCode::TagInvalid) => true,
        (OciErrorCode::Unauthorized, OciErrorCode::Unauthorized) => true,
        (OciErrorCode::Denied, OciErrorCode::Denied) => true,
        (OciErrorCode::Unsupported, OciErrorCode::Unsupported) => true,
        (OciErrorCode::Toomanyrequests, OciErrorCode::Toomanyrequests) => true,
        _ => false,
    }
}

impl OciErrorCode {
    /// A copy of this code.
    pub fn duplicate(&self) -> (r: OciErrorCode)
        ensures
            same_code(r, *self),
    {
        match self {
            OciErrorCode::BlobUnknown => OciErrorCode::BlobUnknown,
            OciErrorCode::BlobUploadInvalid => OciErrorCode::BlobUploadInvalid,
            OciErrorCode::BlobUploadUnknown => OciErrorCode::BlobUploadUnknown,
            OciErrorCode::DigestInvalid => OciErrorCode::DigestInvalid,
            OciErrorCode::ManifestBlobUnknown => OciErrorCode::ManifestBlobUnknown,
            OciErrorCode::ManifestInvalid => OciErrorCode::ManifestInvalid,
            OciErrorCode::ManifestUnknown => OciErrorCode::ManifestUnknown,
            OciErrorCode::ManifestUnverified => OciErrorCode::ManifestUnverified,
            OciErrorCode::NameInvalid => OciErrorCode::NameInvalid,
            OciErrorCode::NameUnknown => OciErrorCode::NameUnknown,
            OciErrorCode::NotFound => OciErrorCode::NotFound,
            OciErrorCode::SizeInvalid => OciErrorCode::SizeInvalid,
            OciErrorCode::TagInvalid => OciErrorCode::TagInvalid,
            OciErrorCode::Unauthorized => OciErrorCode::Unauthorized,
            OciErrorCode::Denied => OciErrorCode::Denied,
            OciErrorCode::Unsupported => OciErrorCode::Unsupported,
            OciErrorCode::Toomanyrequests => OciErrorCode::Toomanyrequests,
            OciErrorCode::Other(code) => OciErrorCode::Other(code.clone()),
        }
    }
}

/// One error of the error envelope that a registry returned.
#[derive(Debug, Clone, PartialEq)]
pub struct OciRegistryError {
    pub code: OciErrorCode,
    pub message: String,
    pub detail: String,
}

/// One error of a registry's error envelope, as the outside client reports it:
/// its code, its message, and its `detail` rendered as JSON text (`None` when
/// rendering failed).
#[derive(Debug, Clone, PartialEq)]
pub struct NativeOciError {
    pub code: OciErrorCode,
    pub message: String,
    pub detail: Option<String>,
}

/// `r` is the exposed form of `n`: same code and message, and the rendered
/// detail, or the empty string when there is none.
pub open spec fn registry_error_converts(r: OciRegistryError, n: NativeOciError) -> bool {
    &&& same_code(r.code, n.code)
    &&& r.message@ == n.message@
    &&& r.detail@ == match n.detail {
        Some(d) => d@,
        None => Seq::<char>::empty(),
    }
}

pub open spec fn registry_errors_convert(rs: Seq<OciRegistryError>, ns: Seq<NativeOciError>) -> bool {
    rs.len() == ns.len() && forall|i: int|
        0 <= i < ns.len() ==> registry_error_converts(#[trigger] rs[i], ns[i])
}

/// Two codes agree only when they are the same code: a code of the
/// specification agrees with itself alone, and a code outside it agrees with
/// the outside code of the same text.
pub proof fn law_same_code_is_equality(a: OciErrorCode, b: OciErrorCode)
    requires
        same_code(a, b),
    ensures
        a is Other <==> b is Other,
        a is Other ==> a->Other_0@ == b->Other_0@,
        !(a is Other) ==> a == b,
{
}

/// Each registry error keeps its code, its message and its rendered detail;
/// a detail that could not be rendered becomes the empty string.
pub proof fn law_registry_errors_keep_their_fields(rs: Seq<OciRegistryError>, ns: Seq<NativeOciError>)
    requires
        registry_errors_convert(rs, ns),
    ensures
        rs.len() == ns.len(),
        forall|i: int|
            0 <= i < ns.len() ==> {
                &&& (#[trigger] rs[i]).message@ == ns[i].message@
                &&& (rs[i].code is Other <==> ns[i].code is Other)
                &&& (!(ns[i].code is Other) ==> rs[i].code == ns[i].code)
                &&& (ns[i].code is Other ==> rs[i].code->Other_0@ == ns[i].code->Other_0@)
                &&& (ns[i].detail is Some ==> rs[i].detail@ == ns[i].detail->0@)
                &&& (ns[i].detail is None ==> rs[i].detail@.len() == 0)
            },
{
    assert forall|i: int| 0 <= i < ns.len() implies {
        &&& (#[trigger] rs[i]).message@ == ns[i].message@
        &&& (rs[i].code is Other <==> ns[i].code is Other)
        &&& (!(ns[i].code is Other) ==> rs[i].code == ns[i].code)
        &&& (ns[i].code is Other ==> rs[i].code->Other_0@ == ns[i].code->Other_0@)
        &&& (ns[i].detail is Some ==> rs[i].detail@ == ns[i].detail->0@)
        &&& (ns[i].detail is None ==> rs[i].detail@.len() == 0)
    } by {
        assert(registry_error_converts(rs[i], ns[i]));
        law_same_code_is_equality(rs[i].code, ns[i].code);
    }
}

/// The exposed form of each error of a registry's error envelope, in order.
pub fn convert_envelope(errors: &Vec<NativeOciError>) -> (r: Vec<OciRegistryError>)
    ensures
        registry_errors_convert(r@, errors@),
        r@.len() == errors@.len(),
        forall|i: int|
            0 <= i < errors@.len() ==> (#[trigger] r@[i]).message@ == errors@[i].message@
                && (errors@[i].detail is Some ==> r@[i].detail@ == errors@[i].detail->0@) && (
            errors@[i].detail is None ==> r@[i].detail@.len() == 0),
{
    let mut r: Vec<OciRegistryError> = Vec::new();
    let n = errors.len();
    let mut i: usize = 0;
    while i < n
        invariant
            n == errors@.len(),
            i <= n,
            r@.len() == i,
            forall|k: int| 0 <= k < i ==> registry_error_converts(#[trigger] r@[k], errors@[k]),
        decreases n - i,
    {
        let e = &errors[i];
        let detail = match &e.detail {
            Some(d) => d.clone(),
            None => String::new(),
        };
        r.push(OciRegistryError { code: e.code.duplicate(), message: e.message.clone(), detail });
        i = i + 1;
    }
    proof {
        law_registry_errors_keep_their_fields(r@, errors@);
    }
    r
}

// ---------------------------------------------------------------------------
// Distribution errors
// ---------------------------------------------------------------------------

/// An error of the OCI distribution client, one variant per variant of the
/// outside client's error, each with the error's display text as `message`.
#[derive(Debug)]
pub enum OciDistributionError {
    AuthenticationFailure { message: String, cause: Option<JsonValue> },
    ConfigConversionError { message: String, cause: Option<JsonValue> },
    DigestError { message: String, cause: Option<JsonValue> },
    GenericError { message: String, cause: Option<JsonValue> },
    HeaderValueError { message: String, cause: Option<JsonValue> },
    ImageIndexParsingNoPlatformResolverError { message: String, cause: Option<JsonValue> },
    ImageManifestNotFoundError { message: String, cause: Option<JsonValue>, image: String },
    IncompatibleLayerMediaTypeError { message: String, cause: Option<JsonValue> },
    IoError { message: String, cause: Option<JsonValue> },
    JsonError { message: String, cause: Option<JsonValue> },
    ManifestEncodingError { message: String, cause: Option<JsonValue> },
    ManifestParsingError { message: String, cause: Option<JsonValue> },
    PullNoLayersError { message: String, cause: Option<JsonValue> },
    PushLayerNoDataError { message: String, cause: Option<JsonValue> },
    PushNoDataError { message: String, cause: Option<JsonValue> },
    RegistryError { message: String, cause: Option<JsonValue>, url: String, errors: Vec<OciRegistryError> },
    RegistryNoDigestError { message: String, cause: Option<JsonValue> },
    RegistryNoLocationError { message: String, cause: Option<JsonValue> },
    RegistryTokenDecodeError { message: String, cause: Option<JsonValue> },
    RequestError { message: String, cause: Option<JsonValue> },
    ServerError { message: String, cause: Option<JsonValue>, status_code: u32, url: String, server_message: String },
    SpecViolationError { message: String, cause: Option<JsonValue> },
    UnauthorizedError { message: String, cause: Option<JsonValue>, url: String },
    UrlParseError { message: String, cause: Option<JsonValue> },
    UnsupportedMediaTypeError { message: String, cause: Option<JsonValue> },
    UnsupportedSchemaVersionError { message: String, cause: Option<JsonValue> },
    VersionedParsingError { message: String, cause: Option<JsonValue> },
}

/// The outside client's error variant, with the fields that the conversion reads.
#[derive(Debug, Clone, PartialEq)]
pub enum NativeDistributionErrorKind {
    AuthenticationFailure,
    ConfigConversionError,
    DigestError,
    GenericError,
    HeaderValueError,
    ImageIndexParsingNoPlatformResolverError,
    ImageManifestNotFoundError(String),
    IncompatibleLayerMediaTypeError,
    IoError,
    JsonError,
    ManifestEncodingError,
    ManifestParsingError,
    PullNoLayersError,
    PushLayerNoDataError,
    PushNoDataError,
    RegistryError { url: String, errors: Vec<NativeOciError> },
    RegistryNoDigestError,
    RegistryNoLocationError,
    RegistryTokenDecodeError,
    RequestError,
    ServerError { code: u16, url: String, message: String },
    SpecViolationError,
    UnauthorizedError { url: String },
    UrlParseError,
    UnsupportedMediaTypeError,
    UnsupportedSchemaVersionError,
    VersionedParsingError,
}

/// An error of the outside client: its variant and its display text.
#[derive(Debug, Clone, PartialEq)]
pub struct NativeDistributionError {
    pub kind: NativeDistributionErrorKind,
    pub display: String,
}

/// `e` has the variant of `k`, with the fields that `k` carries.
pub open spec fn distribution_variant_matches(e: OciDistributionError, k: NativeDistributionErrorKind) -> bool {
    match (e, k) {
        (OciDistributionError::AuthenticationFailure { .. }, NativeDistributionErrorKind::AuthenticationFailure) => true,
        (OciDistributionError::ConfigConversionError { .. }, NativeDistributionErrorKind::ConfigConversionError) => true,
        (OciDistributionError::DigestError { .. }, NativeDistributionErrorKind::DigestError) => true,
        (OciDistributionError::GenericError { .. }, NativeDistributionErrorKind::GenericError) => true,
        (OciDistributionError::HeaderValueError { .. }, NativeDistributionErrorKind::HeaderValueError) => true,
        (OciDistributionError::ImageIndexParsingNoPlatformResolverError { .. }, NativeDistributionErrorKind::ImageIndexParsingNoPlatformResolverError) => true,
        (OciDistributionError::ImageManifestNotFoundError { image, .. }, NativeDistributionErrorKind::ImageManifestNotFoundError(i)) => image@ == i@,
        (OciDistributionError::IncompatibleLayerMediaTypeError { .. }, NativeDistributionErrorKind::IncompatibleLayerMediaTypeError) => true,
        (OciDistributionError::IoError { .. }, NativeDistributionErrorKind::IoError) => true,
        (OciDistributionError::JsonError { .. }, NativeDistributionErrorKind::JsonError) => true,
        (OciDistributionError::ManifestEncodingError { .. }, NativeDistributionErrorKind::ManifestEncodingError) => true,
        (OciDistributionError::ManifestParsingError { .. }, NativeDistributionErrorKind::ManifestParsingError) => true,
        (OciDistributionError::PullNoLayersError { .. }, NativeDistributionErrorKind::PullNoLayersError) => true,
        (OciDistributionError::PushLayerNoDataError { .. }, NativeDistributionErrorKind::PushLayerNoDataError) => true,
        (OciDistributionError::PushNoDataError { .. }, NativeDistributionErrorKind::PushNoDataError) => true,
        (OciDistributionError::RegistryError { url, errors, .. }, NativeDistributionErrorKind::RegistryError { url: u, errors: es }) => url@ == u@ && registry_errors_convert(errors@, es@),
        (OciDistributionError::RegistryNoDigestError { .. }, NativeDistributionErrorKind::RegistryNoDigestError) => true,
        (OciDistributionError::RegistryNoLocationError { .. }, NativeDistributionErrorKind::RegistryNoLocationError) => true,
        (OciDistributionError::RegistryTokenDecodeError { .. }, NativeDistributionErrorKind::RegistryTokenDecodeError) => true,
        (OciDistributionError::RequestError { .. }, NativeDistributionErrorKind::RequestError) => true,
        (OciDistributionError::ServerError { status_code, url, server_message, .. }, NativeDistributionErrorKind::ServerError { code, url: u, message }) => status_code == code && url@ == u@ && server_message@ == message@,
        (OciDistributionError::SpecViolationError { .. }, NativeDistributionErrorKind::SpecViolationError) => true,
        (OciDistributionError::UnauthorizedError { url, .. }, NativeDistributionErrorKind::UnauthorizedError { url: u }) => url@ == u@,
        (OciDistributionError::UrlParseError { .. }, NativeDistributionErrorKind::UrlParseError) => true,
        (OciDistributionError::UnsupportedMediaTypeError { .. }, NativeDistributionErrorKind::UnsupportedMediaTypeError) => true,
        (OciDistributionError::UnsupportedSchemaVersionError { .. }, NativeDistributionErrorKind::UnsupportedSchemaVersionError) => true,
        (OciDistributionError::VersionedParsingError { .. }, NativeDistributionErrorKind::VersionedParsingError) => true,
        _ => false,
    }
}

/// The name of the outside client's error variant.
pub open spec fn native_kind_name(k: NativeDistributionErrorKind) -> Seq<char> {
    match k {
        NativeDistributionErrorKind::AuthenticationFailure => seq!['A', 'u', 't', 'h', 'e', 'n', 't', 'i', 'c', 'a', 't', 'i', 'o', 'n', 'F', 'a', 'i', 'l', 'u', 'r', 'e'],
        NativeDistributionErrorKind::ConfigConversionError => seq!['C', 'o', 'n', 'f', 'i', 'g', 'C', 'o', 'n', 'v', 'e', 'r', 's', 'i', 'o', 'n', 'E', 'r', 'r', 'o', 'r'],
        NativeDistributionErrorKind::DigestError => seq!['D', 'i', 'g', 'e', 's', 't', 'E', 'r', 'r', 'o', 'r'],
        NativeDistributionErrorKind::GenericError => seq!['G', 'e', 'n', 'e', 'r', 'i', 'c', 'E', 'r', 'r', 'o', 'r'],
        NativeDistributionErrorKind::HeaderValueError => seq!['H', 'e', 'a', 'd', 'e', 'r', 'V', 'a', 'l', 'u', 'e', 'E', 'r', 'r', 'o', 'r'],
        NativeDistributionErrorKind::ImageIndexParsingNoPlatformResolverError => seq!['I', 'm', 'a', 'g', 'e', 'I', 'n', 'd', 'e', 'x', 'P', 'a', 'r', 's', 'i', 'n', 'g', 'N', 'o', 'P', 'l', 'a', 't', 'f', 'o', 'r', 'm', 'R', 'e', 's', 'o', 'l', 'v', 'e', 'r', 'E', 'r', 'r', 'o', 'r'],
        NativeDistributionErrorKind::ImageManifestNotFoundError(_) => seq!['I', 'm', 'a', 'g', 'e', 'M', 'a', 'n', 'i', 'f', 'e', 's', 't', 'N', 'o', 't', 'F', 'o', 'u', 'n', 'd', 'E', 'r', 'r', 'o', 'r'],
        NativeDistributionErrorKind::IncompatibleLayerMediaTypeError => seq!['I', 'n', 'c', 'o', 'm', 'p', 'a', 't', 'i', 'b', 'l', 'e', 'L', 'a', 'y', 'e', 'r', 'M', 'e', 'd', 'i', 'a', 'T', 'y', 'p', 'e', 'E', 'r', 'r', 'o', 'r'],
        NativeDistributionErrorKind::IoError => seq!['I', 'o', 'E', 'r', 'r', 'o', 'r'],
        NativeDistributionErrorKind::JsonError => seq!['J', 's', 'o', 'n', 'E', 'r', 'r', 'o', 'r'],
        NativeDistributionErrorKind::ManifestEncodingError => seq!['M', 'a', 'n', 'i', 'f', 'e', 's', 't', 'E', 'n', 'c', 'o', 'd', 'i', 'n', 'g', 'E', 'r', 'r', 'o', 'r'],
        NativeDistributionErrorKind::ManifestParsingError => seq!['M', 'a', 'n', 'i', 'f', 'e', 's', 't', 'P', 'a', 'r', 's', 'i', 'n', 'g', 'E', 'r', 'r', 'o', 'r'],
        NativeDistributionErrorKind::PullNoLayersError => seq!['P', 'u', 'l', 'l', 'N', 'o', 'L', 'a', 'y', 'e', 'r', 's', 'E', 'r', 'r', 'o', 'r'],
        NativeDistributionErrorKind::PushLayerNoDataError => seq!['P', 'u', 's', 'h', 'L', 'a', 'y', 'e', 'r', 'N', 'o', 'D', 'a', 't', 'a', 'E', 'r', 'r', 'o', 'r'],
        NativeDistributionErrorKind::PushNoDataError => seq!['P', 'u', 's', 'h', 'N', 'o', 'D', 'a', 't', 'a', 'E', 'r', 'r', 'o', 'r'],
        NativeDistributionErrorKind::RegistryError { .. } => seq!['R', 'e', 'g', 'i', 's', 't', 'r', 'y', 'E', 'r', 'r', 'o', 'r'],
        NativeDistributionErrorKind::RegistryNoDigestError => seq!['R', 'e', 'g', 'i', 's', 't', 'r', 'y', 'N', 'o', 'D', 'i', 'g', 'e', 's', 't', 'E', 'r', 'r', 'o', 'r'],
        NativeDistributionErrorKind::RegistryNoLocationError => seq!['R', 'e', 'g', 'i', 's', 't', 'r', 'y', 'N', 'o', 'L', 'o', 'c', 'a', 't', 'i', 'o', 'n', 'E', 'r', 'r', 'o', 'r'],
        NativeDistributionErrorKind::RegistryTokenDecodeError => seq!['R', 'e', 'g', 'i', 's', 't', 'r', 'y', 'T', 'o', 'k', 'e', 'n', 'D', 'e', 'c', 'o', 'd', 'e', 'E', 'r', 'r', 'o', 'r'],
        NativeDistributionErrorKind::RequestError => seq!['R', 'e', 'q', 'u', 'e', 's', 't', 'E', 'r', 'r', 'o', 'r'],
        NativeDistributionErrorKind::ServerError { .. } => seq!['S', 'e', 'r', 'v', 'e', 'r', 'E', 'r', 'r', 'o', 'r'],
        NativeDistributionErrorKind::SpecViolationError => seq!['S', 'p', 'e', 'c', 'V', 'i', 'o', 'l', 'a', 't', 'i', 'o', 'n', 'E', 'r', 'r', 'o', 'r'],
        NativeDistributionErrorKind::UnauthorizedError { .. } => seq!['U', 'n', 'a', 'u', 't', 'h', 'o', 'r', 'i', 'z', 'e', 'd', 'E', 'r', 'r', 'o', 'r'],
        NativeDistributionErrorKind::UrlParseError => seq!['U', 'r', 'l', 'P', 'a', 'r', 's', 'e', 'E', 'r', 'r', 'o', 'r'],
        NativeDistributionErrorKind::UnsupportedMediaTypeError => seq!['U', 'n', 's', 'u', 'p', 'p', 'o', 'r', 't', 'e', 'd', 'M', 'e', 'd', 'i', 'a', 'T', 'y', 'p', 'e', 'E', 'r', 'r', 'o', 'r'],
        NativeDistributionErrorKind::UnsupportedSchemaVersionError => seq!['U', 'n', 's', 'u', 'p', 'p', 'o', 'r', 't', 'e', 'd', 'S', 'c', 'h', 'e', 'm', 'a', 'V', 'e', 'r', 's', 'i', 'o', 'n', 'E', 'r', 'r', 'o', 'r'],
        NativeDistributionErrorKind::VersionedParsingError => seq!['V', 'e', 'r', 's', 'i', 'o', 'n', 'e', 'd', 'P', 'a', 'r', 's', 'i', 'n', 'g', 'E', 'r', 'r', 'o', 'r'],
    }
}

/// `a` and `b` are the same variant of the outside error.
pub open spec fn same_native_variant(a: NativeDistributionErrorKind, b: NativeDistributionErrorKind) -> bool {
    match (a, b) {
        (NativeDistributionErrorKind::AuthenticationFailure, NativeDistributionErrorKind::AuthenticationFailure) => true,
        (NativeDistributionErrorKind::ConfigConversionError, NativeDistributionErrorKind::ConfigConversionError) => true,
        (NativeDistributionErrorKind::DigestError, NativeDistributionErrorKind::DigestError) => true,
        (NativeDistributionErrorKind::GenericError, NativeDistributionErrorKind::GenericError) => true,
        (NativeDistributionErrorKind::HeaderValueError, NativeDistributionErrorKind::HeaderValueError) => true,
        (NativeDistributionErrorKind::ImageIndexParsingNoPlatformResolverError, NativeDistributionErrorKind::ImageIndexParsingNoPlatformResolverError) => true,
        (NativeDistributionErrorKind::ImageManifestNotFoundError(_), NativeDistributionErrorKind::ImageManifestNotFoundError(_)) => true,
        (NativeDistributionErrorKind::IncompatibleLayerMediaTypeError, NativeDistributionErrorKind::IncompatibleLayerMediaTypeError) => true,
        (NativeDistributionErrorKind::IoError, NativeDistributionErrorKind::IoError) => true,
        (NativeDistributionErrorKind::JsonError, NativeDistributionErrorKind::JsonError) => true,
        (NativeDistributionErrorKind::ManifestEncodingError, NativeDistributionErrorKind::ManifestEncodingError) => true,
        (NativeDistributionErrorKind::ManifestParsingError, NativeDistributionErrorKind::ManifestParsingError) => true,
        (NativeDistributionErrorKind::PullNoLayersError, NativeDistributionErrorKind::PullNoLayersError) => true,
        (NativeDistributionErrorKind::PushLayerNoDataError, NativeDistributionErrorKind::PushLayerNoDataError) => true,
        (NativeDistributionErrorKind::PushNoDataError, NativeDistributionErrorKind::PushNoDataError) => true,
        (NativeDistributionErrorKind::RegistryError { .. }, NativeDistributionErrorKind::RegistryError { .. }) => true,
        (NativeDistributionErrorKind::RegistryNoDigestError, NativeDistributionErrorKind::RegistryNoDigestError) => true,
        (NativeDistributionErrorKind::RegistryNoLocationError, NativeDistributionErrorKind::RegistryNoLocationError) => true,
        (NativeDistributionErrorKind::RegistryTokenDecodeError, NativeDistributionErrorKind::RegistryTokenDecodeError) => true,
        (NativeDistributionErrorKind::RequestError, NativeDistributionErrorKind::RequestError) => true,
        (NativeDistributionErrorKind::ServerError { .. }, NativeDistributionErrorKind::ServerError { .. }) => true,
        (NativeDistributionErrorKind::SpecViolationError, NativeDistributionErrorKind::SpecViolationError) => true,
        (NativeDistributionErrorKind::UnauthorizedError { .. }, NativeDistributionErrorKind::UnauthorizedError { .. }) => true,
        (NativeDistributionErrorKind::UrlParseError, NativeDistributionErrorKind::UrlParseError) => true,
        (NativeDistributionErrorKind::UnsupportedMediaTypeError, NativeDistributionErrorKind::UnsupportedMediaTypeError) => true,
        (NativeDistributionErrorKind::UnsupportedSchemaVersionError, NativeDistributionErrorKind::UnsupportedSchemaVersionError) => true,
        (NativeDistributionErrorKind::VersionedParsingError, NativeDistributionErrorKind::VersionedParsingError) => true,
        _ => false,
    }
}

/// Conversion keeps the variant's name: whenever an exposed error is the
/// form of an outside error, its serde `type` tag is the name of the outside
/// error's variant (a request error stays `RequestError`, an I/O error
/// `IoError`).
pub proof fn law_variant_keeps_its_name(e: OciDistributionError, k: NativeDistributionErrorKind)
    requires
        distribution_variant_matches(e, k),
    ensures
        e.type_tag() == native_kind_name(k),
{
}

/// Distinct outside variants have distinct names, so no two of them are
/// exposed as one variant.
pub proof fn law_variant_names_differ(a: NativeDistributionErrorKind, b: NativeDistributionErrorKind)
    requires
        !same_native_variant(a, b),
    ensures
        native_kind_name(a) != native_kind_name(b),
{
    let na = native_kind_name(a);
    let nb = native_kind_name(b);
    assert(na.len() != nb.len() || exists|i: int| 0 <= i < na.len() && na[i] != nb[i]);
}

impl OciDistributionError {
    /// The serde `type` tag of the variant.
    pub open spec fn type_tag(self) -> Seq<char> {
        match self {
            OciDistributionError::AuthenticationFailure { .. } => seq!['A', 'u', 't', 'h', 'e', 'n', 't', 'i', 'c', 'a', 't', 'i', 'o', 'n', 'F', 'a', 'i', 'l', 'u', 'r', 'e'],
            OciDistributionError::ConfigConversionError { .. } => seq!['C', 'o', 'n', 'f', 'i', 'g', 'C', 'o', 'n', 'v', 'e', 'r', 's', 'i', 'o', 'n', 'E', 'r', 'r', 'o', 'r'],
            OciDistributionError::DigestError { .. } => seq!['D', 'i', 'g', 'e', 's', 't', 'E', 'r', 'r', 'o', 'r'],
            OciDistributionError::GenericError { .. } => seq!['G', 'e', 'n', 'e', 'r', 'i', 'c', 'E', 'r', 'r', 'o', 'r'],
            OciDistributionError::HeaderValueError { .. } => seq!['H', 'e', 'a', 'd', 'e', 'r', 'V', 'a', 'l', 'u', 'e', 'E', 'r', 'r', 'o', 'r'],
            OciDistributionError::ImageIndexParsingNoPlatformResolverError { .. } => seq!['I', 'm', 'a', 'g', 'e', 'I', 'n', 'd', 'e', 'x', 'P', 'a', 'r', 's', 'i', 'n', 'g', 'N', 'o', 'P', 'l', 'a', 't', 'f', 'o', 'r', 'm', 'R', 'e', 's', 'o', 'l', 'v', 'e', 'r', 'E', 'r', 'r', 'o', 'r'],
            OciDistributionError::ImageManifestNotFoundError { .. } => seq!['I', 'm', 'a', 'g', 'e', 'M', 'a', 'n', 'i', 'f', 'e', 's', 't', 'N', 'o', 't', 'F', 'o', 'u', 'n', 'd', 'E', 'r', 'r', 'o', 'r'],
            OciDistributionError::IncompatibleLayerMediaTypeError { .. } => seq!['I', 'n', 'c', 'o', 'm', 'p', 'a', 't', 'i', 'b', 'l', 'e', 'L', 'a', 'y', 'e', 'r', 'M', 'e', 'd', 'i', 'a', 'T', 'y', 'p', 'e', 'E', 'r', 'r', 'o', 'r'],
            OciDistributionError::IoError { .. } => seq!['I', 'o', 'E', 'r', 'r', 'o', 'r'],
            OciDistributionError::JsonError { .. } => seq!['J', 's', 'o', 'n', 'E', 'r', 'r', 'o', 'r'],
            OciDistributionError::ManifestEncodingError { .. } => seq!['M', 'a', 'n', 'i', 'f', 'e', 's', 't', 'E', 'n', 'c', 'o', 'd', 'i', 'n', 'g', 'E', 'r', 'r', 'o', 'r'],
            OciDistributionError::ManifestParsingError { .. } => seq!['M', 'a', 'n', 'i', 'f', 'e', 's', 't', 'P', 'a', 'r', 's', 'i', 'n', 'g', 'E', 'r', 'r', 'o', 'r'],
            OciDistributionError::PullNoLayersError { .. } => seq!['P', 'u', 'l', 'l', 'N', 'o', 'L', 'a', 'y', 'e', 'r', 's', 'E', 'r', 'r', 'o', 'r'],
            OciDistributionError::PushLayerNoDataError { .. } => seq!['P', 'u', 's', 'h', 'L', 'a', 'y', 'e', 'r', 'N', 'o', 'D', 'a', 't', 'a', 'E', 'r', 'r', 'o', 'r'],
            OciDistributionError::PushNoDataError { .. } => seq!['P', 'u', 's', 'h', 'N', 'o', 'D', 'a', 't', 'a', 'E', 'r', 'r', 'o', 'r'],
            OciDistributionError::RegistryError { .. } => seq!['R', 'e', 'g', 'i', 's', 't', 'r', 'y', 'E', 'r', 'r', 'o', 'r'],
            OciDistributionError::RegistryNoDigestError { .. } => seq!['R', 'e', 'g', 'i', 's', 't', 'r', 'y', 'N', 'o', 'D', 'i', 'g', 'e', 's', 't', 'E', 'r', 'r', 'o', 'r'],
            OciDistributionError::RegistryNoLocationError { .. } => seq!['R', 'e', 'g', 'i', 's', 't', 'r', 'y', 'N', 'o', 'L', 'o', 'c', 'a', 't', 'i', 'o', 'n', 'E', 'r', 'r', 'o', 'r'],
            OciDistributionError::RegistryTokenDecodeError { .. } => seq!['R', 'e', 'g', 'i', 's', 't', 'r', 'y', 'T', 'o', 'k', 'e', 'n', 'D', 'e', 'c', 'o', 'd', 'e', 'E', 'r', 'r', 'o', 'r'],
            OciDistributionError::RequestError { .. } => seq!['R', 'e', 'q', 'u', 'e', 's', 't', 'E', 'r', 'r', 'o', 'r'],
            OciDistributionError::ServerError { .. } => seq!['S', 'e', 'r', 'v', 'e', 'r', 'E', 'r', 'r', 'o', 'r'],
            OciDistributionError::SpecViolationError { .. } => seq!['S', 'p', 'e', 'c', 'V', 'i', 'o', 'l', 'a', 't', 'i', 'o', 'n', 'E', 'r', 'r', 'o', 'r'],
            OciDistributionError::UnauthorizedError { .. } => seq!['U', 'n', 'a', 'u', 't', 'h', 'o', 'r', 'i', 'z', 'e', 'd', 'E', 'r', 'r', 'o', 'r'],
            OciDistributionError::UrlParseError { .. } => seq!['U', 'r', 'l', 'P', 'a', 'r', 's', 'e', 'E', 'r', 'r', 'o', 'r'],
            OciDistributionError::UnsupportedMediaTypeError { .. } => seq!['U', 'n', 's', 'u', 'p', 'p', 'o', 'r', 't', 'e', 'd', 'M', 'e', 'd', 'i', 'a', 'T', 'y', 'p', 'e', 'E', 'r', 'r', 'o', 'r'],
            OciDistributionError::UnsupportedSchemaVersionError { .. } => seq!['U', 'n', 's', 'u', 'p', 'p', 'o', 'r', 't', 'e', 'd', 'S', 'c', 'h', 'e', 'm', 'a', 'V', 'e', 'r', 's', 'i', 'o', 'n', 'E', 'r', 'r', 'o', 'r'],
            OciDistributionError::VersionedParsingError { .. } => seq!['V', 'e', 'r', 's', 'i', 'o', 'n', 'e', 'd', 'P', 'a', 'r', 's', 'i', 'n', 'g', 'E', 'r', 'r', 'o', 'r'],
        }
    }

    /// The `message` field of any variant.
    pub open spec fn message_of(self) -> String {
        match self {
            OciDistributionError::AuthenticationFailure { message, .. } => message,
            OciDistributionError::ConfigConversionError { message, .. } => message,
            OciDistributionError::DigestError { message, .. } => message,
            OciDistributionError::GenericError { message, .. } => message,
            OciDistributionError::HeaderValueError { message, .. } => message,
            OciDistributionError::ImageIndexParsingNoPlatformResolverError { message, .. } => message,
            OciDistributionError::ImageManifestNotFoundError { message, .. } => message,
            OciDistributionError::IncompatibleLayerMediaTypeError { message, .. } => message,
            OciDistributionError::IoError { message, .. } => message,
            OciDistributionError::JsonError { message, .. } => message,
            OciDistributionError::ManifestEncodingError { message, .. } => message,
            OciDistributionError::ManifestParsingError { message, .. } => message,
            OciDistributionError::PullNoLayersError { message, .. } => message,
            OciDistributionError::PushLayerNoDataError { message, .. } => message,
            OciDistributionError::PushNoDataError { message, .. } => message,
            OciDistributionError::RegistryError { message, .. } => message,
            OciDistributionError::RegistryNoDigestError { message, .. } => message,
            OciDistributionError::RegistryNoLocationError { message, .. } => message,
            OciDistributionError::RegistryTokenDecodeError { message, .. } => message,
            OciDistributionError::RequestError { message, .. } => message,
            OciDistributionError::ServerError { message, .. } => message,
            OciDistributionError::SpecViolationError { message, .. } => message,
            OciDistributionError::UnauthorizedError { message, .. } => message,
            OciDistributionError::UrlParseError { message, .. } => message,
            OciDistributionError::UnsupportedMediaTypeError { message, .. } => message,
            OciDistributionError::UnsupportedSchemaVersionError { message, .. } => message,
            OciDistributionError::VersionedParsingError { message, .. } => message,
        }
    }

    /// The `cause` field of any variant.
    pub open spec fn cause_of(self) -> Option<JsonValue> {
        match self {
            OciDistributionError::AuthenticationFailure { cause, .. } => cause,
            OciDistributionError::ConfigConversionError { cause, .. } => cause,
            OciDistributionError::DigestError { cause, .. } => cause,
            OciDistributionError::GenericError { cause, .. } => cause,
            OciDistributionError::HeaderValueError { cause, .. } => cause,
            OciDistributionError::ImageIndexParsingNoPlatformResolverError { cause, .. } => cause,
            OciDistributionError::ImageManifestNotFoundError { cause, .. } => cause,
            OciDistributionError::IncompatibleLayerMediaTypeError { cause, .. } => cause,
            OciDistributionError::IoError { cause, .. } => cause,
            OciDistributionError::JsonError { cause, .. } => cause,
            OciDistributionError::ManifestEncodingError { cause, .. } => cause,
            OciDistributionError::ManifestParsingError { cause, .. } => cause,
            OciDistributionError::PullNoLayersError { cause, .. } => cause,
            OciDistributionError::PushLayerNoDataError { cause, .. } => cause,
            OciDistributionError::PushNoDataError { cause, .. } => cause,
            OciDistributionError::RegistryError { cause, .. } => cause,
            OciDistributionError::RegistryNoDigestError { cause, .. } => cause,
            OciDistributionError::RegistryNoLocationError { cause, .. } => cause,
            OciDistributionError::RegistryTokenDecodeError { cause, .. } => cause,
            OciDistributionError::RequestError { cause, .. } => cause,
            OciDistributionError::ServerError { cause, .. } => cause,
            OciDistributionError::SpecViolationError { cause, .. } => cause,
            OciDistributionError::UnauthorizedError { cause, .. } => cause,
            OciDistributionError::UrlParseError { cause, .. } => cause,
            OciDistributionError::UnsupportedMediaTypeError { cause, .. } => cause,
            OciDistributionError::UnsupportedSchemaVersionError { cause, .. } => cause,
            OciDistributionError::VersionedParsingError { cause, .. } => cause,
        }
    }

    /// The exposed form of an error of the outside client: the same variant, the
    /// error's display text as `message`, no `cause`, and the fields that the
    /// variant carries (a status code widened to `u32`, a registry's errors
    /// converted one by one).
    pub fn from_native(err: &NativeDistributionError) -> (r: OciDistributionError)
        ensures
            distribution_variant_matches(r, err.kind),
            r.type_tag() == native_kind_name(err.kind),
            r.message_of()@ == err.display@,
            r.cause_of() is None,
            err.kind is ImageManifestNotFoundError ==> (r is ImageManifestNotFoundError && r->image@
                == err.kind->ImageManifestNotFoundError_0@),
            err.kind is UnauthorizedError ==> (r is UnauthorizedError && r->UnauthorizedError_url@
                == err.kind->UnauthorizedError_url@),
            err.kind is ServerError ==> (r is ServerError && r->status_code == err.kind->code
                && r->ServerError_url@ == err.kind->ServerError_url@ && r->server_message@
                == err.kind->message@),
            err.kind is RegistryError ==> {
                &&& r is RegistryError
                &&& r->RegistryError_url@ == err.kind->RegistryError_url@
                &&& r->errors@.len() == err.kind->errors@.len()
                &&& forall|i: int|
                    0 <= i < r->errors@.len() ==> (#[trigger] r->errors@[i]).message@
                        == err.kind->errors@[i].message@ && same_code(
                        r->errors@[i].code,
                        err.kind->errors@[i].code,
                    )
            },
    {
        let message = err.display.clone();
        match &err.kind {
            NativeDistributionErrorKind::AuthenticationFailure => OciDistributionError::AuthenticationFailure { message, cause: None },
            NativeDistributionErrorKind::ConfigConversionError => OciDistributionError::ConfigConversionError { message, cause: None },
            NativeDistributionErrorKind::DigestError => OciDistributionError::DigestError { message, cause: None },
            NativeDistributionErrorKind::GenericError => OciDistributionError::GenericError { message, cause: None },
            NativeDistributionErrorKind::HeaderValueError => OciDistributionError::HeaderValueError { message, cause: None },
            NativeDistributionErrorKind::ImageIndexParsingNoPlatformResolverError => OciDistributionError::ImageIndexParsingNoPlatformResolverError { message, cause: None },
            NativeDistributionErrorKind::ImageManifestNotFoundError(image) => OciDistributionError::ImageManifestNotFoundError { message, cause: None, image: image.clone() },
            NativeDistributionErrorKind::IncompatibleLayerMediaTypeError => OciDistributionError::IncompatibleLayerMediaTypeError { message, cause: None },
            NativeDistributionErrorKind::IoError => OciDistributionError::IoError { message, cause: None },
            NativeDistributionErrorKind::JsonError => OciDistributionError::JsonError { message, cause: None },
            NativeDistributionErrorKind::ManifestEncodingError => OciDistributionError::ManifestEncodingError { message, cause: None },
            NativeDistributionErrorKind::ManifestParsingError => OciDistributionError::ManifestParsingError { message, cause: None },
            NativeDistributionErrorKind::PullNoLayersError => OciDistributionError::PullNoLayersError { message, cause: None },
            NativeDistributionErrorKind::PushLayerNoDataError => OciDistributionError::PushLayerNoDataError { message, cause: None },
            NativeDistributionErrorKind::PushNoDataError => OciDistributionError::PushNoDataError { message, cause: None },
            NativeDistributionErrorKind::RegistryError { url, errors } => OciDistributionError::RegistryError { message, cause: None, url: url.clone(), errors: convert_envelope(errors) },
            NativeDistributionErrorKind::RegistryNoDigestError => OciDistributionError::RegistryNoDigestError { message, cause: None },
            NativeDistributionErrorKind::RegistryNoLocationError => OciDistributionError::RegistryNoLocationError { message, cause: None },
            NativeDistributionErrorKind::RegistryTokenDecodeError => OciDistributionError::RegistryTokenDecodeError { message, cause: None },
            NativeDistributionErrorKind::RequestError => OciDistributionError::RequestError { message, cause: None },
            NativeDistributionErrorKind::ServerError { code, url, message: server_message } => OciDistributionError::ServerError { message, cause: None, status_code: *code as u32, url: url.clone(), server_message: server_message.clone() },
            NativeDistributionErrorKind::SpecViolationError => OciDistributionError::SpecViolationError { message, cause: None },
            NativeDistributionErrorKind::UnauthorizedError { url } => OciDistributionError::UnauthorizedError { message, cause: None, url: url.clone() },
            NativeDistributionErrorKind::UrlParseError => OciDistributionError::UrlParseError { message, cause: None },
            NativeDistributionErrorKind::UnsupportedMediaTypeError => OciDistributionError::UnsupportedMediaTypeError { message, cause: None },
            NativeDistributionErrorKind::UnsupportedSchemaVersionError => OciDistributionError::UnsupportedSchemaVersionError { message, cause: None },
            NativeDistributionErrorKind::VersionedParsingError => OciDistributionError::VersionedParsingError { message, cause: None },
        }
    }
}

// ---------------------------------------------------------------------------
// Reference parse errors
// ---------------------------------------------------------------------------

/// An error from parsing an image reference, with its display text as `message`.
#[derive(Debug)]
pub enum ParseError {
    DigestInvalidFormat { message: String, cause: Option<JsonValue> },
    DigestInvalidLength { message: String, cause: Option<JsonValue> },
    DigestUnsupported { message: String, cause: Option<JsonValue> },
    NameContainsUppercase { message: String, cause: Option<JsonValue> },
    NameEmpty { message: String, cause: Option<JsonValue> },
    NameTooLong { message: String, cause: Option<JsonValue> },
    ReferenceInvalidFormat { message: String, cause: Option<JsonValue> },
    TagInvalidFormat { message: String, cause: Option<JsonValue> },
}

/// Why the outside reference parser rejected a string.
#[derive(Clone, Copy, Debug, PartialEq, Eq, Structural)]
pub enum ParseErrorKind {
    DigestInvalidFormat,
    DigestInvalidLength,
    DigestUnsupported,
    NameContainsUppercase,
    NameEmpty,
    NameTooLong,
    ReferenceInvalidFormat,
    TagInvalidFormat,
}

/// The display text of each reference parse error, as the outside parser
/// defines it.
pub open spec fn parse_error_text(k: ParseErrorKind) -> Seq<char> {
    match k {
        ParseErrorKind::DigestInvalidFormat => seq!['i', 'n', 'v', 'a', 'l', 'i', 'd', ' ', 'c', 'h', 'e', 'c', 'k', 's', 'u', 'm', ' ', 'd', 'i', 'g', 'e', 's', 't', ' ', 'f', 'o', 'r', 'm', 'a', 't'],
        ParseErrorKind::DigestInvalidLength => seq!['i', 'n', 'v', 'a', 'l', 'i', 'd', ' ', 'c', 'h', 'e', 'c', 'k', 's', 'u', 'm', ' ', 'd', 'i', 'g', 'e', 's', 't', ' ', 'l', 'e', 'n', 'g', 't', 'h'],
        ParseErrorKind::DigestUnsupported => seq!['u', 'n', 's', 'u', 'p', 'p', 'o', 'r', 't', 'e', 'd', ' ', 'd', 'i', 'g', 'e', 's', 't', ' ', 'a', 'l', 'g', 'o', 'r', 'i', 't', 'h', 'm'],
        ParseErrorKind::NameContainsUppercase => seq!['r', 'e', 'p', 'o', 's', 'i', 't', 'o', 'r', 'y', ' ', 'n', 'a', 'm', 'e', ' ', 'm', 'u', 's', 't', ' ', 'b', 'e', ' ', 'l', 'o', 'w', 'e', 'r', 'c', 'a', 's', 'e'],
        ParseErrorKind::NameEmpty => seq!['r', 'e', 'p', 'o', 's', 'i', 't', 'o', 'r', 'y', ' ', 'n', 'a', 'm', 'e', ' ', 'm', 'u', 's', 't', ' ', 'h', 'a', 'v', 'e', ' ', 'a', 't', ' ', 'l', 'e', 'a', 's', 't', ' ', 'o', 'n', 'e', ' ', 'c', 'o', 'm', 'p', 'o', 'n', 'e', 'n', 't'],
        ParseErrorKind::NameTooLong => seq!['r', 'e', 'p', 'o', 's', 'i', 't', 'o', 'r', 'y', ' ', 'n', 'a', 'm', 'e', ' ', 'm', 'u', 's', 't', ' ', 'n', 'o', 't', ' ', 'b', 'e', ' ', 'm', 'o', 'r', 'e', ' ', 't', 'h', 'a', 'n', ' ', '2', '5', '5', ' ', 'c', 'h', 'a', 'r', 'a', 'c', 't', 'e', 'r', 's'],
        ParseErrorKind::ReferenceInvalidFormat => seq!['i', 'n', 'v', 'a', 'l', 'i', 'd', ' ', 'r', 'e', 'f', 'e', 'r', 'e', 'n', 'c', 'e', ' ', 'f', 'o', 'r', 'm', 'a', 't'],
        ParseErrorKind::TagInvalidFormat => seq!['i', 'n', 'v', 'a', 'l', 'i', 'd', ' ', 't', 'a', 'g', ' ', 'f', 'o', 'r', 'm', 'a', 't'],
    }
}

/// The name of a reason for rejecting a reference.
pub open spec fn parse_kind_name(k: ParseErrorKind) -> Seq<char> {
    match k {
        ParseErrorKind::DigestInvalidFormat => seq!['D', 'i', 'g', 'e', 's', 't', 'I', 'n', 'v', 'a', 'l', 'i', 'd', 'F', 'o', 'r', 'm', 'a', 't'],
        ParseErrorKind::DigestInvalidLength => seq!['D', 'i', 'g', 'e', 's', 't', 'I', 'n', 'v', 'a', 'l', 'i', 'd', 'L', 'e', 'n', 'g', 't', 'h'],
        ParseErrorKind::DigestUnsupported => seq!['D', 'i', 'g', 'e', 's', 't', 'U', 'n', 's', 'u', 'p', 'p', 'o', 'r', 't', 'e', 'd'],
        ParseErrorKind::NameContainsUppercase => seq!['N', 'a', 'm', 'e', 'C', 'o', 'n', 't', 'a', 'i', 'n', 's', 'U', 'p', 'p', 'e', 'r', 'c', 'a', 's', 'e'],
        ParseErrorKind::NameEmpty => seq!['N', 'a', 'm', 'e', 'E', 'm', 'p', 't', 'y'],
        ParseErrorKind::NameTooLong => seq!['N', 'a', 'm', 'e', 'T', 'o', 'o', 'L', 'o', 'n', 'g'],
        ParseErrorKind::ReferenceInvalidFormat => seq!['R', 'e', 'f', 'e', 'r', 'e', 'n', 'c', 'e', 'I', 'n', 'v', 'a', 'l', 'i', 'd', 'F', 'o', 'r', 'm', 'a', 't'],
        ParseErrorKind::TagInvalidFormat => seq!['T', 'a', 'g', 'I', 'n', 'v', 'a', 'l', 'i', 'd', 'F', 'o', 'r', 'm', 'a', 't'],
    }
}

/// Conversion keeps the reason's name as the serde `type` tag.
pub proof fn law_parse_variant_keeps_its_name(e: ParseError, k: ParseErrorKind)
    requires
        parse_variant_matches(e, k),
    ensures
        e.type_tag() == parse_kind_name(k),
{
}

/// Distinct reasons have distinct names.
pub proof fn law_parse_kind_names_differ(a: ParseErrorKind, b: ParseErrorKind)
    requires
        a != b,
    ensures
        parse_kind_name(a) != parse_kind_name(b),
{
    let na = parse_kind_name(a);
    let nb = parse_kind_name(b);
    assert(na.len() != nb.len() || exists|i: int| 0 <= i < na.len() && na[i] != nb[i]);
}

/// `e` has the variant that `k` names.
pub open spec fn parse_variant_matches(e: ParseError, k: ParseErrorKind) -> bool {
    match (e, k) {
        (ParseError::DigestInvalidFormat { .. }, ParseErrorKind::DigestInvalidFormat) => true,
        (ParseError::DigestInvalidLength { .. }, ParseErrorKind::DigestInvalidLength) => true,
        (ParseError::DigestUnsupported { .. }, ParseErrorKind::DigestUnsupported) => true,
        (ParseError::NameContainsUppercase { .. }, ParseErrorKind::NameContainsUppercase) => true,
        (ParseError::NameEmpty { .. }, ParseErrorKind::NameEmpty) => true,
        (ParseError::NameTooLong { .. }, ParseErrorKind::NameTooLong) => true,
        (ParseError::ReferenceInvalidFormat { .. }, ParseErrorKind::ReferenceInvalidFormat) => true,
        (ParseError::TagInvalidFormat { .. }, ParseErrorKind::TagInvalidFormat) => true,
        _ => false,
    }
}

impl ParseError {
    /// The serde `type` tag of the variant.
    pub open spec fn type_tag(self) -> Seq<char> {
        match self {
            ParseError::DigestInvalidFormat { .. } => seq!['D', 'i', 'g', 'e', 's', 't', 'I', 'n', 'v', 'a', 'l', 'i', 'd', 'F', 'o', 'r', 'm', 'a', 't'],
            ParseError::DigestInvalidLength { .. } => seq!['D', 'i', 'g', 'e', 's', 't', 'I', 'n', 'v', 'a', 'l', 'i', 'd', 'L', 'e', 'n', 'g', 't', 'h'],
            ParseError::DigestUnsupported { .. } => seq!['D', 'i', 'g', 'e', 's', 't', 'U', 'n', 's', 'u', 'p', 'p', 'o', 'r', 't', 'e', 'd'],
            ParseError::NameContainsUppercase { .. } => seq!['N', 'a', 'm', 'e', 'C', 'o', 'n', 't', 'a', 'i', 'n', 's', 'U', 'p', 'p', 'e', 'r', 'c', 'a', 's', 'e'],
            ParseError::NameEmpty { .. } => seq!['N', 'a', 'm', 'e', 'E', 'm', 'p', 't', 'y'],
            ParseError::NameTooLong { .. } => seq!['N', 'a', 'm', 'e', 'T', 'o', 'o', 'L', 'o', 'n', 'g'],
            ParseError::ReferenceInvalidFormat { .. } => seq!['R', 'e', 'f', 'e', 'r', 'e', 'n', 'c', 'e', 'I', 'n', 'v', 'a', 'l', 'i', 'd', 'F', 'o', 'r', 'm', 'a', 't'],
            ParseError::TagInvalidFormat { .. } => seq!['T', 'a', 'g', 'I', 'n', 'v', 'a', 'l', 'i', 'd', 'F', 'o', 'r', 'm', 'a', 't'],
        }
    }

    /// The `message` field of any variant.
    pub open spec fn message_of(self) -> String {
        match self {
            ParseError::DigestInvalidFormat { message, .. } => message,
            ParseError::DigestInvalidLength { message, .. } => message,
            ParseError::DigestUnsupported { message, .. } => message,
            ParseError::NameContainsUppercase { message, .. } => message,
            ParseError::NameEmpty { message, .. } => message,
            ParseError::NameTooLong { message, .. } => message,
            ParseError::ReferenceInvalidFormat { message, .. } => message,
            ParseError::TagInvalidFormat { message, .. } => message,
        }
    }

    /// The `cause` field of any variant.
    pub open spec fn cause_of(self) -> Option<JsonValue> {
        match self {
            ParseError::DigestInvalidFormat { cause, .. } => cause,
            ParseError::DigestInvalidLength { cause, .. } => cause,
            ParseError::DigestUnsupported { cause, .. } => cause,
            ParseError::NameContainsUppercase { cause, .. } => cause,
            ParseError::NameEmpty { cause, .. } => cause,
            ParseError::NameTooLong { cause, .. } => cause,
            ParseError::ReferenceInvalidFormat { cause, .. } => cause,
            ParseError::TagInvalidFormat { cause, .. } => cause,
        }
    }

    /// The exposed form of a reference parse error: the same variant, its display
    /// text as `message`, no `cause`.
    pub fn from_native(kind: ParseErrorKind) -> (r: ParseError)
        ensures
            parse_variant_matches(r, kind),
            r.type_tag() == parse_kind_name(kind),
            r.message_of()@ == parse_error_text(kind),
            r.cause_of() is None,
    {
        let message = parse_error_display(kind);
        match kind {
            ParseErrorKind::DigestInvalidFormat => ParseError::DigestInvalidFormat { message, cause: None },
            ParseErrorKind::DigestInvalidLength => ParseError::DigestInvalidLength { message, cause: None },
            ParseErrorKind::DigestUnsupported => ParseError::DigestUnsupported { message, cause: None },
            ParseErrorKind::NameContainsUppercase => ParseError::NameContainsUppercase { message, cause: None },
            ParseErrorKind::NameEmpty => ParseError::NameEmpty { message, cause: None },
            ParseErrorKind::NameTooLong => ParseError::NameTooLong { message, cause: None },
            ParseErrorKind::ReferenceInvalidFormat => ParseError::ReferenceInvalidFormat { message, cause: None },
            ParseErrorKind::TagInvalidFormat => ParseError::TagInvalidFormat { message, cause: None },
        }
    }
}

/// Builds the outside parser's error for `kind` and formats it with `Display`;
/// the contract claims the texts of its `#[error(..)]` attributes.
#[verifier::external_body]
pub(crate) fn parse_error_display(kind: ParseErrorKind) -> (r: String)
    ensures
        r@ == parse_error_text(kind),
{
    match kind {
        ParseErrorKind::DigestInvalidFormat => oci_client::ParseError::DigestInvalidFormat,
        ParseErrorKind::DigestInvalidLength => oci_client::ParseError::DigestInvalidLength,
        ParseErrorKind::DigestUnsupported => oci_client::ParseError::DigestUnsupported,
        ParseErrorKind::NameContainsUppercase => oci_client::ParseError::NameContainsUppercase,
        ParseErrorKind::NameEmpty => oci_client::ParseError::NameEmpty,
        ParseErrorKind::NameTooLong => oci_client::ParseError::NameTooLong,
        ParseErrorKind::ReferenceInvalidFormat => oci_client::ParseError::ReferenceInvalidFormat,
        ParseErrorKind::TagInvalidFormat => oci_client::ParseError::TagInvalidFormat,
    }.to_string()
}

// ---------------------------------------------------------------------------
// Errors of the bindings as a whole
// ---------------------------------------------------------------------------

/// One link of an error's cause chain, as it is attached to a JavaScript error.
#[derive(Debug)]
pub struct ErrorCause {
    pub type_: String,
    pub message: String,
    pub debug: String,
    pub parsed: Option<JsonValue>,
    pub cause: Option<JsonValue>,
}

/// Whether `debug_str` is a `Debug` string that `debug_to_json` can read
/// (see `debug_shape_well_formed`).
pub fn can_read_debug(debug_str: &str) -> (r: bool)
    ensures
        r == debug_shape_well_formed(debug_str@),
{
    crate::json::debug_shape_is_well_formed(debug_str)
}

impl ErrorCause {
    /// The link for a source error with display text `message` and `Debug`
    /// output `debug`: its type name and parsed value come from reading `debug`
    /// with `debug_to_json`; the deeper cause is attached later.
    pub fn describe(message: String, debug: String) -> (r: ErrorCause)
        requires
            debug_shape_well_formed(debug@),
        ensures
            r.type_@ == spec_debug_to_json(debug@).0,
            r.message@ == message@,
            r.debug@ == debug@,
            r.parsed matches Some(p) && encodes_debug(p, spec_debug_to_json(debug@).1),
            r.cause is None,
    {
        let (name, parsed) = debug_to_json(debug.as_str());
        ErrorCause { type_: name, message, debug, parsed: Some(parsed), cause: None }
    }
}

/// An error of the outside crates that the bindings turn into a JavaScript error.
#[derive(Debug, Clone, PartialEq)]
pub enum NativeBindingError {
    Distribution(NativeDistributionError),
    Parse(ParseErrorKind),
}

impl NativeBindingError {
    /// The display text of the wrapped error.
    pub open spec fn display_text(self) -> Seq<char> {
        match self {
            NativeBindingError::Distribution(e) => e.display@,
            NativeBindingError::Parse(k) => parse_error_text(k),
        }
    }

    /// The display text of the wrapped error.
    pub fn display(&self) -> (r: String)
        ensures
            r@ == self.display_text(),
    {
        match self {
            NativeBindingError::Distribution(e) => e.display.clone(),
            NativeBindingError::Parse(k) => parse_error_display(*k),
        }
    }
}

/// The error that the bindings expose: a distribution error or a reference
/// parse error.
#[derive(Debug)]
pub enum OciBindingError {
    Distribution(OciDistributionError),
    Parse(ParseError),
}

/// `r` is the exposed form of `n`.
pub open spec fn binding_error_converts(r: OciBindingError, n: NativeBindingError) -> bool {
    match (r, n) {
        (OciBindingError::Distribution(d), NativeBindingError::Distribution(e)) => {
            &&& distribution_variant_matches(d, e.kind)
            &&& d.message_of()@ == e.display@
            &&& d.cause_of() is None
        },
        (OciBindingError::Parse(p), NativeBindingError::Parse(k)) => {
            &&& parse_variant_matches(p, k)
            &&& p.message_of()@ == parse_error_text(k)
            &&& p.cause_of() is None
        },
        _ => false,
    }
}

impl OciBindingError {
    /// The exposed form of an error of the outside crates.
    pub fn from_native(err: &NativeBindingError) -> (r: OciBindingError)
        ensures
            binding_error_converts(r, *err),
    {
        match err {
            NativeBindingError::Distribution(e) => OciBindingError::Distribution(
                OciDistributionError::from_native(e),
            ),
            NativeBindingError::Parse(k) => OciBindingError::Parse(ParseError::from_native(*k)),
        }
    }
}

/// The error that the bindings expose carries, as its `message`, the display
/// text of the outside error it came from: the same text that serves as the
/// JavaScript error's own message.
pub proof fn law_exposed_message_is_display(r: OciBindingError, n: NativeBindingError)
    requires
        binding_error_converts(r, n),
    ensures
        match r {
            OciBindingError::Distribution(d) => d.message_of()@ == n.display_text(),
            OciBindingError::Parse(p) => p.message_of()@ == n.display_text(),
        },
{
}

pub open spec fn uncoercible_text() -> Seq<char> {
    seq![
        'u', 'n', 'a', 'b', 'l', 'e', ' ', 't', 'o', ' ', 'c', 'o', 'e', 'r', 'c', 'e', ' ',
        'o', 'b', 'j', 'e', 'c', 't', ' ', 't', 'o', ' ', 'O', 'c', 'i', 'D', 'i', 's', 't',
        'r', 'i', 'b', 'u', 't', 'i', 'o', 'n', 'E', 'r', 'r', 'o', 'r',
    ]
}

/// What a value that is not an object reads back as: a generic error saying so.
pub fn uncoercible_error() -> (r: OciDistributionError)
    ensures
        r matches OciDistributionError::GenericError { message, cause: None } && message@
            == uncoercible_text(),
{
    let text = "unable to coerce object to OciDistributionError";
    proof {
        reveal_strlit("unable to coerce object to OciDistributionError");
        assert(text@ =~= uncoercible_text());
    }
    OciDistributionError::GenericError { message: String::from_str(text), cause: None }
}

/// How an error that the bindings stamped reads back. `message` is the
/// error's own message, if it has one; `has_type` tells whether it carries the
/// stamped `type`; `as_distribution` and `as_parse` are what its stamped fields
/// decode to as each error type, where they decode. A distribution error is
/// preferred to a parse error; without a stamped type, or when neither decodes,
/// it reads as a generic error with its message (empty when it has none).
pub fn read_stamped_error(
    message: Option<String>,
    has_type: bool,
    as_distribution: Option<OciDistributionError>,
    as_parse: Option<ParseError>,
) -> (r: OciBindingError)
    ensures
        has_type && as_distribution is Some ==> r == OciBindingError::Distribution(
            as_distribution->0,
        ),
        has_type && as_distribution is None && as_parse is Some ==> r == OciBindingError::Parse(
            as_parse->0,
        ),
        !has_type || (as_distribution is None && as_parse is None) ==> (r matches OciBindingError::Distribution(
            OciDistributionError::GenericError { message: m, cause: None },
        ) && m@ == match message {
            Some(t) => t@,
            None => Seq::<char>::empty(),
        }),
{
    let text = match message {
        Some(t) => t,
        None => String::new(),
    };
    if has_type {
        match as_distribution {
            Some(d) => {
                return OciBindingError::Distribution(d);
            },
            None => {},
        }
        match as_parse {
            Some(p) => {
                return OciBindingError::Parse(p);
            },
            None => {},
        }
    }
    OciBindingError::Distribution(OciDistributionError::GenericError { message: text, cause: None })
}

} // verus!
