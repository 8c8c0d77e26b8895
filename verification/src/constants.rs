//! OCI annotation keys and media types.

use vstd::prelude::*;

verus! {

/// Date and time on which the image was built (string, date-time as defined by RFC 3339)
pub const ORG_OPENCONTAINERS_IMAGE_CREATED: &'static str = "org.opencontainers.image.created";

/// Contact details of the people or organization responsible for the image (freeform string)
pub const ORG_OPENCONTAINERS_IMAGE_AUTHORS: &'static str = "org.opencontainers.image.authors";

/// URL to find more information on the image (string)
pub const ORG_OPENCONTAINERS_IMAGE_URL: &'static str = "org.opencontainers.image.url";

/// URL to get documentation on the image (string)
pub const ORG_OPENCONTAINERS_IMAGE_DOCUMENTATION: &'static str = "org.opencontainers.image.documentation";

/// URL to get source code for building the image (string)
pub const ORG_OPENCONTAINERS_IMAGE_SOURCE: &'static str = "org.opencontainers.image.source";

/// Version of the packaged software
pub const ORG_OPENCONTAINERS_IMAGE_VERSION: &'static str = "org.opencontainers.image.version";

/// Source control revision identifier for the packaged software
pub const ORG_OPENCONTAINERS_IMAGE_REVISION: &'static str = "org.opencontainers.image.revision";

/// Name of the distributing entity, organization or individual
pub const ORG_OPENCONTAINERS_IMAGE_VENDOR: &'static str = "org.opencontainers.image.vendor";

/// License(s) under which contained software is distributed as an SPDX License Expression
pub const ORG_OPENCONTAINERS_IMAGE_LICENSES: &'static str = "org.opencontainers.image.licenses";

/// Name of the reference for a target (string)
pub const ORG_OPENCONTAINERS_IMAGE_REF_NAME: &'static str = "org.opencontainers.image.ref.name";

/// Human-readable title of the image (string)
pub const ORG_OPENCONTAINERS_IMAGE_TITLE: &'static str = "org.opencontainers.image.title";

/// Human-readable description of the software packaged in the image (string)
pub const ORG_OPENCONTAINERS_IMAGE_DESCRIPTION: &'static str = "org.opencontainers.image.description";

/// Digest of the image this image is based on (string)
pub const ORG_OPENCONTAINERS_IMAGE_BASE_DIGEST: &'static str = "org.opencontainers.image.base.digest";

/// Image reference of the image this image is based on (string)
pub const ORG_OPENCONTAINERS_IMAGE_BASE_NAME: &'static str = "org.opencontainers.image.base.name";

/// The mediatype for WASM layers
pub const WASM_LAYER_MEDIA_TYPE: &'static str = "application/vnd.wasm.content.layer.v1+wasm";

/// The mediatype for a WASM image config
pub const WASM_CONFIG_MEDIA_TYPE: &'static str = "application/vnd.wasm.config.v1+json";

/// The mediatype for a Docker v2 schema 2 manifest
pub const IMAGE_MANIFEST_MEDIA_TYPE: &'static str = "application/vnd.docker.distribution.manifest.v2+json";

/// The mediatype for a Docker v2 schema 2 manifest list
pub const IMAGE_MANIFEST_LIST_MEDIA_TYPE: &'static str =
    "application/vnd.docker.distribution.manifest.list.v2+json";

/// The mediatype for an OCI image index manifest
pub const OCI_IMAGE_INDEX_MEDIA_TYPE: &'static str = "application/vnd.oci.image.index.v1+json";

/// The mediatype for an OCI image manifest
pub const OCI_IMAGE_MEDIA_TYPE: &'static str = "application/vnd.oci.image.manifest.v1+json";

/// The mediatype for an image config (manifest)
pub const IMAGE_CONFIG_MEDIA_TYPE: &'static str = "application/vnd.oci.image.config.v1+json";

/// The mediatype that Docker uses for image configs
pub const IMAGE_DOCKER_CONFIG_MEDIA_TYPE: &'static str = "application/vnd.docker.container.image.v1+json";

/// The mediatype for a layer
pub const IMAGE_LAYER_MEDIA_TYPE: &'static str = "application/vnd.oci.image.layer.v1.tar";

/// The mediatype for a layer that is gzipped
pub const IMAGE_LAYER_GZIP_MEDIA_TYPE: &'static str = "application/vnd.oci.image.layer.v1.tar+gzip";

/// The mediatype that Docker uses for a layer that is tarred
pub const IMAGE_DOCKER_LAYER_TAR_MEDIA_TYPE: &'static str = "application/vnd.docker.image.rootfs.diff.tar";

/// The mediatype that Docker uses for a layer that is gzipped
pub const IMAGE_DOCKER_LAYER_GZIP_MEDIA_TYPE: &'static str =
    "application/vnd.docker.image.rootfs.diff.tar.gzip";

/// The mediatype for a layer that is nondistributable
pub const IMAGE_LAYER_NONDISTRIBUTABLE_MEDIA_TYPE: &'static str =
    "application/vnd.oci.image.layer.nondistributable.v1.tar";

/// The mediatype for a layer that is nondistributable and gzipped
pub const IMAGE_LAYER_NONDISTRIBUTABLE_GZIP_MEDIA_TYPE: &'static str =
    "application/vnd.oci.image.layer.nondistributable.v1.tar+gzip";

} // verus!
