use oci_client_js::errors::NativeDistributionErrorKind;
use oci_client_js::manifest::{
    Descriptor, ImageIndex, ImageManifest, Manifest, ManifestContent, ManifestType,
};

fn descriptor(digest: &str) -> Descriptor {
    Descriptor {
        media_type: "application/vnd.oci.image.config.v1+json".to_string(),
        digest: digest.to_string(),
        size: 42,
        urls: None,
        annotations: None,
        artifact_type: None,
    }
}

fn image() -> ImageManifest {
    ImageManifest {
        schema_version: 2,
        media_type: Some("application/vnd.oci.image.manifest.v1+json".to_string()),
        config: descriptor("sha256:config"),
        layers: vec![descriptor("sha256:layer")],
        subject: None,
        artifact_type: None,
        annotations: None,
    }
}

fn index() -> ImageIndex {
    ImageIndex {
        schema_version: 2,
        media_type: Some("application/vnd.oci.image.index.v1+json".to_string()),
        manifests: vec![],
        artifact_type: None,
        annotations: None,
    }
}

#[test]
fn content_round_trip() {
    let m = Manifest::from_content(ManifestContent::Image(image()));
    assert_eq!(m.manifest_type, ManifestType::Image);
    assert!(m.image_index.is_none());
    assert_eq!(m.clone().into_content(), Ok(ManifestContent::Image(image())));
    let m = Manifest::from_content(ManifestContent::ImageIndex(index()));
    assert_eq!(m.manifest_type, ManifestType::ImageIndex);
    assert!(m.image.is_none());
    assert_eq!(m.into_content(), Ok(ManifestContent::ImageIndex(index())));
}

#[test]
fn the_type_decides_which_field_is_read() {
    let m = Manifest {
        manifest_type: ManifestType::Image,
        image: Some(image()),
        image_index: Some(index()),
    };
    assert_eq!(m.into_content(), Ok(ManifestContent::Image(image())));
}

#[test]
fn missing_field_is_a_parsing_error() {
    let m = Manifest { manifest_type: ManifestType::Image, image: None, image_index: Some(index()) };
    let e = m.into_content().expect_err("refused");
    assert_eq!(e.kind, NativeDistributionErrorKind::ManifestParsingError);
    assert_eq!(
        e.display,
        "Failed to parse manifest as Versioned object: image field required for Image manifest type"
    );
    let native = oci_client::errors::OciDistributionError::ManifestParsingError(
        "image field required for Image manifest type".to_string(),
    );
    assert_eq!(e.display, native.to_string());
    let m = Manifest { manifest_type: ManifestType::ImageIndex, image: Some(image()), image_index: None };
    let e = m.into_content().expect_err("refused");
    assert_eq!(
        e.display,
        "Failed to parse manifest as Versioned object: image_index field required for ImageIndex manifest type"
    );
}
