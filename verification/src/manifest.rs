//! Image data and manifest types, and the choice between an image manifest and
//! an image index.

use vstd::prelude::*;
use std::collections::BTreeMap;
use crate::errors::{NativeDistributionError, NativeDistributionErrorKind};

verus! {

/// An image layer with data and metadata.
#[derive(Debug, Clone, PartialEq)]
pub struct ImageLayer {
    /// The layer data as raw bytes
    pub data: Vec<u8>,
    /// The media type of this layer
    pub media_type: String,
    /// Optional annotations for this layer
    pub annotations: Option<BTreeMap<String, String>>,
}

/// Configuration object for an image.
#[derive(Debug, Clone, PartialEq)]
pub struct Config {
    /// The config data as raw bytes
    pub data: Vec<u8>,
    /// The media type of this config
    pub media_type: String,
    /// Optional annotations for this config
    pub annotations: Option<BTreeMap<String, String>>,
}

/// Data returned from pulling an image.
#[derive(Debug, Clone, PartialEq)]
pub struct ImageData {
    /// The layers of the image
    pub layers: Vec<ImageLayer>,
    /// The digest of the image (if available)
    pub digest: Option<String>,
    /// The configuration object of the image
    pub config: Config,
    /// The manifest (if available)
    pub manifest: Option<ImageManifest>,
}

/// Response from pushing an image.
#[derive(Debug, Clone, PartialEq)]
pub struct PushResponse {
    /// Pullable URL for the config
    pub config_url: String,
    /// Pullable URL for the manifest
    pub manifest_url: String,
}

/// OCI Descriptor - describes a content addressable resource.
#[derive(Debug, Clone, PartialEq)]
pub struct Descriptor {
    /// The media type of the referenced content
    pub media_type: String,
    /// The digest of the targeted content
    pub digest: String,
    /// The size in bytes of the targeted content
    pub size: i64,
    /// Optional list of URLs from which this object may be downloaded
    pub urls: Option<Vec<String>>,
    /// Optional annotations for this descriptor
    pub annotations: Option<BTreeMap<String, String>>,
    /// Optional artifact type when the descriptor points to an artifact
    pub artifact_type: Option<String>,
}

/// Platform specification for an image.
#[derive(Debug, Clone, PartialEq)]
pub struct PlatformSpec {
    /// CPU architecture
    pub architecture: String,
    /// Operating system
    pub os: String,
    /// OS version
    pub os_version: Option<String>,
    /// OS features
    pub os_features: Option<Vec<String>>,
    /// CPU variant
    pub variant: Option<String>,
    /// Additional features
    pub features: Option<Vec<String>>,
}

/// An entry in an image index manifest.
#[derive(Debug, Clone, PartialEq)]
pub struct ManifestEntry {
    /// Media type of the manifest
    pub media_type: String,
    /// Digest of the manifest
    pub digest: String,
    /// Size in bytes
    pub size: i64,
    /// Platform specification
    pub platform: Option<PlatformSpec>,
    /// Annotations
    pub annotations: Option<BTreeMap<String, String>>,
    /// Optional artifact type for referrers
    pub artifact_type: Option<String>,
}

/// OCI Image Index (manifest list).
#[derive(Debug, Clone, PartialEq)]
pub struct ImageIndex {
    /// Schema version (always 2)
    pub schema_version: u8,
    /// Media type of this manifest
    pub media_type: Option<String>,
    /// List of manifests for specific platforms
    pub manifests: Vec<ManifestEntry>,
    /// Artifact type
    pub artifact_type: Option<String>,
    /// Annotations
    pub annotations: Option<BTreeMap<String, String>>,
}

/// OCI Image Manifest.
#[derive(Debug, Clone, PartialEq)]
pub struct ImageManifest {
    /// Schema version (always 2)
    pub schema_version: u8,
    /// Media type of this manifest
    pub media_type: Option<String>,
    /// The image configuration descriptor
    pub config: Descriptor,
    /// The image layers
    pub layers: Vec<Descriptor>,
    /// Subject descriptor (for referrers)
    pub subject: Option<Descriptor>,
    /// Artifact type
    pub artifact_type: Option<String>,
    /// Annotations
    pub annotations: Option<BTreeMap<String, String>>,
}

/// Manifest type discriminator.
#[derive(Clone, Copy, Debug, PartialEq, Eq, Structural)]
pub enum ManifestType {
    /// An OCI image manifest
    Image,
    /// An OCI image index (manifest list)
    ImageIndex,
}

/// OCI Manifest - either an Image manifest or an ImageIndex; `manifest_type`
/// tells which field is populated.
#[derive(Debug, Clone, PartialEq)]
pub struct Manifest {
    /// The type of manifest
    pub manifest_type: ManifestType,
    /// The image manifest (populated when manifest_type is Image)
    pub image: Option<ImageManifest>,
    /// The image index (populated when manifest_type is ImageIndex)
    pub image_index: Option<ImageIndex>,
}

/// A manifest as the outside client holds it: an image manifest or an image index.
#[derive(Debug, Clone, PartialEq)]
pub enum ManifestContent {
    Image(ImageManifest),
    ImageIndex(ImageIndex),
}

/// Result from pull_manifest containing both manifest and digest.
#[derive(Debug, Clone, PartialEq)]
pub struct PullManifestResult {
    /// The pulled manifest
    pub manifest: Manifest,
    /// The digest of the manifest
    pub digest: String,
}

/// Result from pull_image_manifest containing both manifest and digest.
#[derive(Debug, Clone, PartialEq)]
pub struct PullImageManifestResult {
    /// The pulled image manifest
    pub manifest: ImageManifest,
    /// The digest of the manifest
    pub digest: String,
}

/// Result from pull_image_manifest_and_list_digest.
#[derive(Debug, Clone, PartialEq)]
pub struct PullImageManifestAndListDigestResult {
    /// The pulled image manifest
    pub manifest: ImageManifest,
    /// The digest of the manifest
    pub digest: String,
    /// The digest of the parent manifest list/image index, if the manifest was resolved from one
    pub list_digest: Option<String>,
}

/// Result from pull_manifest_and_config_and_list_digest.
#[derive(Debug, Clone, PartialEq)]
pub struct PullManifestAndConfigAndListDigestResult {
    /// The pulled image manifest
    pub manifest: ImageManifest,
    /// The digest of the manifest
    pub digest: String,
    /// The config JSON as a string
    pub config: String,
    /// The digest of the parent manifest list/image index, if the manifest was resolved from one
    pub list_digest: Option<String>,
}

/// The manifest that describes `c`: its type, and `c` in the matching field.
pub open spec fn spec_from_content(c: ManifestContent) -> Manifest {
    match c {
        ManifestContent::Image(img) => Manifest {
            manifest_type: ManifestType::Image,
            image: Some(img),
            image_index: None,
        },
        ManifestContent::ImageIndex(idx) => Manifest {
            manifest_type: ManifestType::ImageIndex,
            image: None,
            image_index: Some(idx),
        },
    }
}

/// The field that `m`'s type names is populated.
pub open spec fn manifest_accepts(m: Manifest) -> bool {
    match m.manifest_type {
        ManifestType::Image => m.image is Some,
        ManifestType::ImageIndex => m.image_index is Some,
    }
}

/// The content that an accepted manifest holds.
pub open spec fn content_of(m: Manifest) -> ManifestContent
    recommends
        manifest_accepts(m),
{
    match m.manifest_type {
        ManifestType::Image => ManifestContent::Image(m.image->0),
        ManifestType::ImageIndex => ManifestContent::ImageIndex(m.image_index->0),
    }
}

pub open spec fn manifest_parsing_prefix() -> Seq<char> {
    seq![
        'F', 'a', 'i', 'l', 'e', 'd', ' ', 't', 'o', ' ', 'p', 'a', 'r', 's', 'e', ' ', 'm', 'a',
        'n', 'i', 'f', 'e', 's', 't', ' ', 'a', 's', ' ', 'V', 'e', 'r', 's', 'i', 'o', 'n', 'e',
        'd', ' ', 'o', 'b', 'j', 'e', 'c', 't', ':', ' ',
    ]
}

/// Formats the outside client's `ManifestParsingError(detail)` with `Display`;
/// the contract claims the format of its `#[error(..)]` attribute.
#[verifier::external_body]
pub(crate) fn manifest_parsing_error_display(detail: &str) -> (r: String)
    ensures
        r@ == manifest_parsing_prefix() + detail@,
{
    oci_client::errors::OciDistributionError::ManifestParsingError(detail.to_string()).to_string()
}

pub open spec fn missing_image_text() -> Seq<char> {
    seq![
        'i', 'm', 'a', 'g', 'e', ' ', 'f', 'i', 'e', 'l', 'd', ' ', 'r', 'e', 'q', 'u', 'i', 'r',
        'e', 'd', ' ', 'f', 'o', 'r', ' ', 'I', 'm', 'a', 'g', 'e', ' ', 'm', 'a', 'n', 'i', 'f',
        'e', 's', 't', ' ', 't', 'y', 'p', 'e',
    ]
}

pub open spec fn missing_index_text() -> Seq<char> {
    seq![
        'i', 'm', 'a', 'g', 'e', '_', 'i', 'n', 'd', 'e', 'x', ' ', 'f', 'i', 'e', 'l', 'd', ' ',
        'r', 'e', 'q', 'u', 'i', 'r', 'e', 'd', ' ', 'f', 'o', 'r', ' ', 'I', 'm', 'a', 'g', 'e',
        'I', 'n', 'd', 'e', 'x', ' ', 'm', 'a', 'n', 'i', 'f', 'e', 's', 't', ' ', 't', 'y', 'p',
        'e',
    ]
}

/// The outside client's `ManifestParsingError` for the missing field.
pub open spec fn missing_field_error(m: Manifest, e: NativeDistributionError) -> bool {
    &&& e.kind == NativeDistributionErrorKind::ManifestParsingError
    &&& e.display@ == manifest_parsing_prefix() + match m.manifest_type {
        ManifestType::Image => missing_image_text(),
        ManifestType::ImageIndex => missing_index_text(),
    }
}

impl Manifest {
    /// The manifest that describes `content`.
    pub fn from_content(content: ManifestContent) -> (r: Manifest)
        ensures
            r == spec_from_content(content),
    {
        match content {
            ManifestContent::Image(img) => Manifest {
                manifest_type: ManifestType::Image,
                image: Some(img),
                image_index: None,
            },
            ManifestContent::ImageIndex(idx) => Manifest {
                manifest_type: ManifestType::ImageIndex,
                image: None,
                image_index: Some(idx),
            },
        }
    }

    /// The content of the field that the manifest's type names, or a
    /// manifest parsing error when that field is empty.
    pub fn into_content(self) -> (r: Result<ManifestContent, NativeDistributionError>)
        ensures
            manifest_accepts(self) ==> r == Ok::<ManifestContent, NativeDistributionError>(
                content_of(self),
            ),
            !manifest_accepts(self) ==> (r matches Err(e) && missing_field_error(self, e)),
            self.manifest_type is Image ==> match self.image {
                Some(i) => r == Ok::<ManifestContent, NativeDistributionError>(ManifestContent::Image(i)),
                None => r matches Err(e) && e.kind is ManifestParsingError,
            },
            self.manifest_type is ImageIndex ==> match self.image_index {
                Some(i) => r == Ok::<ManifestContent, NativeDistributionError>(
                    ManifestContent::ImageIndex(i),
                ),
                None => r matches Err(e) && e.kind is ManifestParsingError,
            },
    {
        proof {
            law_content_comes_from_the_named_field(self);
        }
        let ghost m = self;
        match self.manifest_type {
            ManifestType::Image => match self.image {
                Some(img) => Ok(ManifestContent::Image(img)),
                None => {
                    let t = "image field required for Image manifest type";
                    proof {
                        reveal_strlit("image field required for Image manifest type");
                        assert(t@ =~= missing_image_text());
                    }
                    Err(
                        NativeDistributionError {
                            kind: NativeDistributionErrorKind::ManifestParsingError,
                            display: manifest_parsing_error_display(t),
                        },
                    )
                },
            },
            ManifestType::ImageIndex => match self.image_index {
                Some(idx) => Ok(ManifestContent::ImageIndex(idx)),
                None => {
                    let t = "image_index field required for ImageIndex manifest type";
                    proof {
                        reveal_strlit("image_index field required for ImageIndex manifest type");
                        assert(t@ =~= missing_index_text());
                    }
                    Err(
                        NativeDistributionError {
                            kind: NativeDistributionErrorKind::ManifestParsingError,
                            display: manifest_parsing_error_display(t),
                        },
                    )
                },
            },
        }
    }
}

/// Describing a manifest's content and reading it back gives that content.
pub proof fn law_content_round_trip(c: ManifestContent)
    ensures
        manifest_accepts(spec_from_content(c)),
        content_of(spec_from_content(c)) == c,
{
}

/// An accepted manifest whose other field is empty is exactly the description
/// of the content it holds.
pub proof fn law_manifest_round_trip(m: Manifest)
    requires
        manifest_accepts(m),
        m.manifest_type == ManifestType::Image ==> m.image_index is None,
        m.manifest_type == ManifestType::ImageIndex ==> m.image is None,
    ensures
        spec_from_content(content_of(m)) == m,
{
}

/// The content is taken from the field that the manifest's type names, and
/// from no other: an `Image` manifest gives its `image`, an `ImageIndex`
/// manifest its `image_index`, and where that field is empty the manifest is
/// refused, whatever the other field holds.
pub proof fn law_content_comes_from_the_named_field(m: Manifest)
    ensures
        m.manifest_type is Image ==> match m.image {
            Some(i) => manifest_accepts(m) && content_of(m) == ManifestContent::Image(i),
            None => !manifest_accepts(m),
        },
        m.manifest_type is ImageIndex ==> match m.image_index {
            Some(i) => manifest_accepts(m) && content_of(m) == ManifestContent::ImageIndex(i),
            None => !manifest_accepts(m),
        },
{
}

} // verus!
