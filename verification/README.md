# oci_client_js

The verified core of JavaScript (N-API) bindings for the `oci-client` crate.

- `src/` is checked by Verus: registry credentials (`auth`), client
  configuration and platform selection (`config`), manifests and the choice
  between an image manifest and an image index (`manifest`), the error types
  exposed to JavaScript and their conversion from the client's errors
  (`errors`), the reading of one level of `Debug` output as JSON (`json`,
  `text`), image references (`reference`), the open/closed state of a client
  (`client`), and the OCI annotation and media type constants (`constants`).
- `app/` holds the N-API layer: the JavaScript-facing copies of the types, the
  conversions to and from `oci-client` types, the asynchronous calls to the
  registry, and the stamping of JavaScript errors.
- `tests/` exercises the library on concrete values.
