//! Client configuration: the options that the bindings take, the settings of
//! the outside client that they resolve to, and platform selection.

use vstd::prelude::*;
use crate::manifest::ManifestEntry;

verus! {

/// Protocol configuration for the client.
#[derive(Clone, Copy, Debug, PartialEq, Eq, Structural)]
pub enum ClientProtocol {
    /// Use HTTP (insecure)
    Http,
    /// Use HTTPS (secure, default)
    Https,
    /// Use HTTPS except for specified registries
    HttpsExcept,
}

/// Certificate encoding format.
#[derive(Clone, Copy, Debug, PartialEq, Eq, Structural)]
pub enum CertificateEncoding {
    /// DER encoded certificate
    Der,
    /// PEM encoded certificate
    Pem,
}

/// A x509 certificate for TLS.
#[derive(Debug, Clone, PartialEq)]
pub struct Certificate {
    /// Which encoding is used by the certificate
    pub encoding: CertificateEncoding,
    /// Certificate data as bytes
    pub data: Vec<u8>,
}

/// Platform filter for selecting a specific platform from multi-platform images.
#[derive(Debug, Clone, PartialEq)]
pub struct PlatformFilter {
    /// Operating system (e.g., "linux", "windows", "darwin")
    pub os: String,
    /// CPU architecture (e.g., "amd64", "arm64", "arm")
    pub architecture: String,
    /// Optional variant (e.g., "v7" for arm/v7)
    pub variant: Option<String>,
}

/// Client configuration options; every option left out keeps the outside
/// client's default.
#[derive(Debug, Clone, PartialEq)]
pub struct ClientConfig {
    pub protocol: Option<ClientProtocol>,
    pub https_except_registries: Option<Vec<String>>,
    pub accept_invalid_certificates: Option<bool>,
    pub use_monolithic_push: Option<bool>,
    pub extra_root_certificates: Option<Vec<Certificate>>,
    pub tls_certs_only: Option<Vec<Certificate>>,
    pub max_concurrent_upload: Option<u32>,
    pub max_concurrent_download: Option<u32>,
    pub default_token_expiration_secs: Option<u32>,
    pub read_timeout_ms: Option<u32>,
    pub connect_timeout_ms: Option<u32>,
    pub https_proxy: Option<String>,
    pub http_proxy: Option<String>,
    pub no_proxy: Option<String>,
    pub platform: Option<PlatformFilter>,
}

/// The protocol setting of the outside client.
#[derive(Debug, Clone, PartialEq)]
pub enum NativeProtocol {
    Http,
    Https,
    HttpsExcept(Vec<String>),
}

/// The platform that a resolver picks from an image index, by the names that
/// the outside client prints for its operating system and architecture.
#[derive(Debug, Clone, PartialEq)]
pub struct PlatformTarget {
    pub os: String,
    pub architecture: String,
    pub variant: Option<String>,
}

/// The settings of the outside client, as plain values. A platform target of
/// `None` keeps the outside client's own platform resolver.
#[derive(Debug, Clone, PartialEq)]
pub struct ClientSettings {
    pub protocol: NativeProtocol,
    pub accept_invalid_certificates: bool,
    pub use_monolithic_push: bool,
    pub extra_root_certificates: Vec<Certificate>,
    pub tls_certs_only: Vec<Certificate>,
    pub max_concurrent_upload: usize,
    pub max_concurrent_download: usize,
    pub default_token_expiration_secs: usize,
    pub read_timeout_ms: Option<u64>,
    pub connect_timeout_ms: Option<u64>,
    pub https_proxy: Option<String>,
    pub http_proxy: Option<String>,
    pub no_proxy: Option<String>,
    pub platform: Option<PlatformTarget>,
}

/// The defaults of the outside client's configuration that the options override.
#[derive(Debug, Clone, PartialEq)]
struct NativeDefaults {
    pub protocol: NativeProtocol,
    pub accept_invalid_certificates: bool,
    pub use_monolithic_push: bool,
    pub max_concurrent_upload: usize,
    pub max_concurrent_download: usize,
    pub default_token_expiration_secs: usize,
}

/// Reads `oci_client::client::ClientConfig::default()`. The contract claims the
/// values that its source sets: HTTPS, no invalid certificates, no monolithic
/// push, 16 concurrent uploads and downloads, tokens expiring after 60 seconds.
/// (Its certificate lists are empty and its timeouts and proxies unset, as its
/// documentation says; those are not read here.)
#[verifier::external_body]
fn native_defaults() -> (r: NativeDefaults)
    ensures
        r.protocol is Https,
        !r.accept_invalid_certificates,
        !r.use_monolithic_push,
        r.max_concurrent_upload == 16,
        r.max_concurrent_download == 16,
        r.default_token_expiration_secs == 60,
{
    let d = oci_client::client::ClientConfig::default();
    NativeDefaults {
        protocol: match d.protocol {
            oci_client::client::ClientProtocol::Http => NativeProtocol::Http,
            oci_client::client::ClientProtocol::Https => NativeProtocol::Https,
            oci_client::client::ClientProtocol::HttpsExcept(v) => NativeProtocol::HttpsExcept(v),
        },
        accept_invalid_certificates: d.accept_invalid_certificates,
        use_monolithic_push: d.use_monolithic_push,
        max_concurrent_upload: d.max_concurrent_upload,
        max_concurrent_download: d.max_concurrent_download,
        default_token_expiration_secs: d.default_token_expiration_secs,
    }
}

/// The name that `oci_spec::image::Arch` prints for an architecture read from
/// `s`: `armbe` reads as the big-endian 64-bit ARM and prints as `arm64be`;
/// every other text prints as itself.
pub open spec fn arch_name(s: Seq<char>) -> Seq<char> {
    if s == seq!['a', 'r', 'm', 'b', 'e'] {
        seq!['a', 'r', 'm', '6', '4', 'b', 'e']
    } else {
        s
    }
}

/// Reads `s` with `oci_spec::image::Os::from` and prints it with `Display`; the
/// contract claims what the two `match`es of the source give: every text
/// prints as itself.
#[verifier::external_body]
fn os_display_name(s: &str) -> (r: String)
    ensures
        r@ == s@,
{
    oci_spec::image::Os::from(s).to_string()
}

/// Reads `s` with `oci_spec::image::Arch::from` and prints it with `Display`;
/// the contract claims what the two `match`es of the source give (`arch_name`).
#[verifier::external_body]
fn arch_display_name(s: &str) -> (r: String)
    ensures
        r@ == arch_name(s@),
{
    oci_spec::image::Arch::from(s).to_string()
}

/// `a` and `b` hold the same certificates in the same order.
pub open spec fn same_certificates(a: Seq<Certificate>, b: Seq<Certificate>) -> bool {
    a.len() == b.len() && forall|i: int|
        0 <= i < a.len() ==> (#[trigger] a[i]).encoding == b[i].encoding && a[i].data@ == b[i].data@
}

/// `a` and `b` hold the same texts in the same order.
pub open spec fn same_texts(a: Seq<String>, b: Seq<String>) -> bool {
    a.len() == b.len() && forall|i: int| 0 <= i < a.len() ==> (#[trigger] a[i])@ == b[i]@
}

/// A certificate list passed on to the outside client is the given list: as
/// many certificates, each with the encoding it was given (a DER certificate
/// stays DER, a PEM one stays PEM) and the same bytes.
pub proof fn law_certificates_pass_unchanged(passed: Seq<Certificate>, given: Seq<Certificate>)
    requires
        same_certificates(passed, given),
    ensures
        passed.len() == given.len(),
        forall|i: int|
            0 <= i < given.len() ==> passed[i].encoding == (#[trigger] given[i]).encoding
                && passed[i].data@ == given[i].data@,
{
    assert forall|i: int| 0 <= i < given.len() implies passed[i].encoding == (
    #[trigger] given[i]).encoding && passed[i].data@ == given[i].data@ by {
        assert(passed[i].encoding == given[i].encoding);
    }
}

fn copy_certificates(certs: &Vec<Certificate>) -> (r: Vec<Certificate>)
    ensures
        same_certificates(r@, certs@),
{
    let mut r: Vec<Certificate> = Vec::new();
    let n = certs.len();
    let mut i: usize = 0;
    while i < n
        invariant
            n == certs@.len(),
            i <= n,
            r@.len() == i,
            forall|k: int|
                0 <= k < i ==> (#[trigger] r@[k]).encoding == certs@[k].encoding && r@[k].data@
                    == certs@[k].data@,
        decreases n - i,
    {
        let c = &certs[i];
        let mut data: Vec<u8> = Vec::new();
        let m = c.data.len();
        let mut j: usize = 0;
        while j < m
            invariant
                m == c.data@.len(),
                j <= m,
                data@ == c.data@.take(j as int),
            decreases m - j,
        {
            data.push(c.data[j]);
            j = j + 1;
        }
        proof {
            assert(c.data@.take(m as int) =~= c.data@);
        }
        r.push(Certificate { encoding: c.encoding, data });
        i = i + 1;
    }
    r
}

fn copy_texts(texts: &Vec<String>) -> (r: Vec<String>)
    ensures
        same_texts(r@, texts@),
{
    let mut r: Vec<String> = Vec::new();
    let n = texts.len();
    let mut i: usize = 0;
    while i < n
        invariant
            n == texts@.len(),
            i <= n,
            r@.len() == i,
            forall|k: int| 0 <= k < i ==> (#[trigger] r@[k])@ == texts@[k]@,
        decreases n - i,
    {
        r.push(texts[i].clone());
        i = i + 1;
    }
    r
}

fn clone_text(o: &Option<String>) -> (r: Option<String>)
    ensures
        r == *o,
{
    match o {
        Some(v) => Some(v.clone()),
        None => None,
    }
}

/// The settings that `c` resolves to, beside those that `ClientConfig::to_native`
/// states in its own clauses.
pub open spec fn protocol_resolves(p: NativeProtocol, c: ClientConfig) -> bool {
    match c.protocol {
        None => p is Https,
        Some(ClientProtocol::Http) => p is Http,
        Some(ClientProtocol::Https) => p is Https,
        Some(ClientProtocol::HttpsExcept) => match p {
            NativeProtocol::HttpsExcept(v) => match c.https_except_registries {
                Some(r) => same_texts(v@, r@),
                None => v@.len() == 0,
            },
            _ => false,
        },
    }
}

/// The platform target that a filter selects: its operating system and
/// architecture by the names the outside client prints, its variant as given.
pub open spec fn target_resolves(t: Option<PlatformTarget>, f: Option<PlatformFilter>) -> bool {
    match f {
        None => t is None,
        Some(p) => t matches Some(x) && x.os@ == p.os@ && x.architecture@ == arch_name(
            p.architecture@,
        ) && x.variant == p.variant,
    }
}

/// The protocol is the one asked for (HTTPS when none is); `HttpsExcept`
/// carries exactly the listed registries, in order (none when the list is left
/// out). The platform target keeps the filter's operating system and variant,
/// and its architecture, except that `armbe` is spelled `arm64be`; without a
/// filter there is no target.
pub proof fn law_protocol_and_platform_follow_the_options(c: ClientConfig, s: ClientSettings)
    requires
        protocol_resolves(s.protocol, c),
        target_resolves(s.platform, c.platform),
    ensures
        c.protocol is None ==> s.protocol is Https,
        c.protocol == Some(ClientProtocol::Http) ==> s.protocol is Http,
        c.protocol == Some(ClientProtocol::Https) ==> s.protocol is Https,
        c.protocol == Some(ClientProtocol::HttpsExcept) ==> s.protocol is HttpsExcept,
        c.protocol == Some(ClientProtocol::HttpsExcept) && c.https_except_registries is None
            ==> s.protocol->HttpsExcept_0@.len() == 0,
        c.protocol == Some(ClientProtocol::HttpsExcept) && c.https_except_registries is Some ==> {
            let given = c.https_except_registries->0@;
            let taken = s.protocol->HttpsExcept_0@;
            &&& taken.len() == given.len()
            &&& forall|i: int| 0 <= i < given.len() ==> taken[i]@ == (#[trigger] given[i])@
        },
        c.platform is None ==> s.platform is None,
        c.platform is Some ==> {
            let f = c.platform->0;
            &&& s.platform is Some
            &&& s.platform->0.os@ == f.os@
            &&& s.platform->0.variant == f.variant
            &&& s.platform->0.architecture@ == if f.architecture@ == seq!['a', 'r', 'm', 'b', 'e'] {
                seq!['a', 'r', 'm', '6', '4', 'b', 'e']
            } else {
                f.architecture@
            }
        },
{
    if c.protocol == Some(ClientProtocol::HttpsExcept) && c.https_except_registries is Some {
        let given = c.https_except_registries->0@;
        let taken = s.protocol->HttpsExcept_0@;
        assert(same_texts(taken, given));
        assert forall|i: int| 0 <= i < given.len() implies taken[i]@ == (#[trigger] given[i])@ by {
            assert(taken[i]@ == given[i]@);
        }
    }
}

impl ClientConfig {
    /// The outside client's settings: each option that is set replaces the
    /// outside default. `HttpsExcept` takes the listed registries (none when
    /// the list is left out), counts widen to `usize`, timeouts are kept in
    /// milliseconds.
    pub fn to_native(&self) -> (r: ClientSettings)
        ensures
            protocol_resolves(r.protocol, *self),
            self.protocol is None ==> r.protocol is Https,
            self.protocol == Some(ClientProtocol::Http) ==> r.protocol is Http,
            self.protocol == Some(ClientProtocol::Https) ==> r.protocol is Https,
            self.protocol == Some(ClientProtocol::HttpsExcept) ==> r.protocol is HttpsExcept,
            self.protocol == Some(ClientProtocol::HttpsExcept) && self.https_except_registries is Some
                ==> r.protocol->HttpsExcept_0@.len() == self.https_except_registries->0@.len(),
            self.platform is Some ==> (r.platform is Some && r.platform->0.os@
                == self.platform->0.os@ && r.platform->0.variant == self.platform->0.variant),
            r.accept_invalid_certificates == match self.accept_invalid_certificates {
                Some(b) => b,
                None => false,
            },
            r.use_monolithic_push == match self.use_monolithic_push {
                Some(b) => b,
                None => false,
            },
            match self.extra_root_certificates {
                Some(cs) => same_certificates(r.extra_root_certificates@, cs@),
                None => r.extra_root_certificates@.len() == 0,
            },
            match self.tls_certs_only {
                Some(cs) => same_certificates(r.tls_certs_only@, cs@),
                None => r.tls_certs_only@.len() == 0,
            },
            self.extra_root_certificates matches Some(cs) ==> forall|i: int|
                0 <= i < cs@.len() ==> r.extra_root_certificates@[i].encoding == (
                #[trigger] cs@[i]).encoding && r.extra_root_certificates@[i].data@ == cs@[i].data@,
            self.tls_certs_only matches Some(cs) ==> forall|i: int|
                0 <= i < cs@.len() ==> r.tls_certs_only@[i].encoding == (#[trigger] cs@[i]).encoding
                    && r.tls_certs_only@[i].data@ == cs@[i].data@,
            r.max_concurrent_upload == match self.max_concurrent_upload {
                Some(n) => n as int,
                None => 16,
            },
            r.max_concurrent_download == match self.max_concurrent_download {
                Some(n) => n as int,
                None => 16,
            },
            r.default_token_expiration_secs == match self.default_token_expiration_secs {
                Some(n) => n as int,
                None => 60,
            },
            r.read_timeout_ms == match self.read_timeout_ms {
                Some(ms) => Some(ms as u64),
                None => None::<u64>,
            },
            r.connect_timeout_ms == match self.connect_timeout_ms {
                Some(ms) => Some(ms as u64),
                None => None::<u64>,
            },
            r.https_proxy == self.https_proxy,
            r.http_proxy == self.http_proxy,
            r.no_proxy == self.no_proxy,
            target_resolves(r.platform, self.platform),
    {
        let d = native_defaults();
        let protocol = match self.protocol {
            None => d.protocol,
            Some(ClientProtocol::Http) => NativeProtocol::Http,
            Some(ClientProtocol::Https) => NativeProtocol::Https,
            Some(ClientProtocol::HttpsExcept) => {
                let registries = match &self.https_except_registries {
                    Some(r) => copy_texts(r),
                    None => Vec::new(),
                };
                NativeProtocol::HttpsExcept(registries)
            },
        };
        let accept_invalid_certificates = match self.accept_invalid_certificates {
            Some(b) => b,
            None => d.accept_invalid_certificates,
        };
        let use_monolithic_push = match self.use_monolithic_push {
            Some(b) => b,
            None => d.use_monolithic_push,
        };
        let extra_root_certificates = match &self.extra_root_certificates {
            Some(cs) => copy_certificates(cs),
            None => Vec::new(),
        };
        let tls_certs_only = match &self.tls_certs_only {
            Some(cs) => copy_certificates(cs),
            None => Vec::new(),
        };
        let max_concurrent_upload = match self.max_concurrent_upload {
            Some(n) => n as usize,
            None => d.max_concurrent_upload,
        };
        let max_concurrent_download = match self.max_concurrent_download {
            Some(n) => n as usize,
            None => d.max_concurrent_download,
        };
        let default_token_expiration_secs = match self.default_token_expiration_secs {
            Some(n) => n as usize,
            None => d.default_token_expiration_secs,
        };
        let read_timeout_ms = match self.read_timeout_ms {
            Some(ms) => Some(ms as u64),
            None => None,
        };
        let connect_timeout_ms = match self.connect_timeout_ms {
            Some(ms) => Some(ms as u64),
            None => None,
        };
        let https_proxy = clone_text(&self.https_proxy);
        let http_proxy = clone_text(&self.http_proxy);
        let no_proxy = clone_text(&self.no_proxy);
        let platform = match &self.platform {
            Some(p) => Some(
                PlatformTarget {
                    os: os_display_name(p.os.as_str()),
                    architecture: arch_display_name(p.architecture.as_str()),
                    variant: clone_text(&p.variant),
                },
            ),
            None => None,
        };
        proof {
            law_protocol_and_platform_follow_the_options(
                *self,
                ClientSettings {
                    protocol,
                    accept_invalid_certificates,
                    use_monolithic_push,
                    extra_root_certificates,
                    tls_certs_only,
                    max_concurrent_upload,
                    max_concurrent_download,
                    default_token_expiration_secs,
                    read_timeout_ms,
                    connect_timeout_ms,
                    https_proxy,
                    http_proxy,
                    no_proxy,
                    platform,
                },
            );
            if self.extra_root_certificates is Some {
                law_certificates_pass_unchanged(
                    extra_root_certificates@,
                    self.extra_root_certificates->0@,
                );
            }
            if self.tls_certs_only is Some {
                law_certificates_pass_unchanged(tls_certs_only@, self.tls_certs_only->0@);
            }
        }
        ClientSettings {
            protocol,
            accept_invalid_certificates,
            use_monolithic_push,
            extra_root_certificates,
            tls_certs_only,
            max_concurrent_upload,
            max_concurrent_download,
            default_token_expiration_secs,
            read_timeout_ms,
            connect_timeout_ms,
            https_proxy,
            http_proxy,
            no_proxy,
            platform,
        }
    }
}

/// `e` runs on the target platform: it names a platform with the target's
/// operating system and architecture, and with its variant when the target
/// names one.
pub open spec fn entry_matches(e: ManifestEntry, t: PlatformTarget) -> bool {
    match e.platform {
        Some(p) => p.os@ == t.os@ && p.architecture@ == t.architecture@ && match t.variant {
            None => true,
            Some(v) => p.variant matches Some(w) && w@ == v@,
        },
        None => false,
    }
}

/// The first entry at or after `i` that runs on the target platform.
pub open spec fn first_match(es: Seq<ManifestEntry>, t: PlatformTarget, i: int) -> Option<int>
    decreases es.len() - i,
{
    if i < 0 || i >= es.len() {
        None
    } else if entry_matches(es[i], t) {
        Some(i)
    } else {
        first_match(es, t, i + 1)
    }
}

/// The entry that selection picks runs on the target: it names a platform
/// with the target's operating system and architecture, and, when the target
/// names a variant, a platform variant that is exactly that variant (an entry
/// without a variant never serves a target that names one). Every entry before
/// it fails one of these, and when nothing is picked no entry satisfies them.
pub proof fn law_selected_entry_runs_on_target(es: Seq<ManifestEntry>, t: PlatformTarget)
    ensures
        first_match(es, t, 0) matches Some(i) ==> {
            &&& 0 <= i < es.len()
            &&& es[i].platform matches Some(p)
            &&& p.os@ == t.os@
            &&& p.architecture@ == t.architecture@
            &&& (t.variant matches Some(v) ==> (p.variant matches Some(w) && w@ == v@))
        },
        first_match(es, t, 0) matches Some(i) ==> forall|j: int|
            0 <= j < i ==> !(#[trigger] es[j].platform matches Some(p) && p.os@ == t.os@
                && p.architecture@ == t.architecture@ && (t.variant matches Some(v) ==> (
            p.variant matches Some(w) && w@ == v@))),
        first_match(es, t, 0) is None ==> forall|j: int|
            0 <= j < es.len() ==> !(#[trigger] es[j].platform matches Some(p) && p.os@ == t.os@
                && p.architecture@ == t.architecture@ && (t.variant matches Some(v) ==> (
            p.variant matches Some(w) && w@ == v@))),
{
    lemma_first_match_from(es, t, 0);
}

proof fn lemma_first_match_from(es: Seq<ManifestEntry>, t: PlatformTarget, k: int)
    requires
        0 <= k,
    ensures
        first_match(es, t, k) matches Some(i) ==> {
            &&& k <= i < es.len()
            &&& es[i].platform matches Some(p)
            &&& p.os@ == t.os@
            &&& p.architecture@ == t.architecture@
            &&& (t.variant matches Some(v) ==> (p.variant matches Some(w) && w@ == v@))
        },
        first_match(es, t, k) matches Some(i) ==> forall|j: int|
            k <= j < i ==> !(#[trigger] es[j].platform matches Some(p) && p.os@ == t.os@
                && p.architecture@ == t.architecture@ && (t.variant matches Some(v) ==> (
            p.variant matches Some(w) && w@ == v@))),
        first_match(es, t, k) is None ==> forall|j: int|
            k <= j < es.len() ==> !(#[trigger] es[j].platform matches Some(p) && p.os@ == t.os@
                && p.architecture@ == t.architecture@ && (t.variant matches Some(v) ==> (
            p.variant matches Some(w) && w@ == v@))),
    decreases es.len() - k,
{
    if k < es.len() && !entry_matches(es[k], t) {
        lemma_first_match_from(es, t, k + 1);
    }
}

fn text_equal(a: &String, b: &String) -> (r: bool)
    ensures
        r == (a@ == b@),
{
    *a == *b
}

fn entry_runs_on(e: &ManifestEntry, t: &PlatformTarget) -> (r: bool)
    ensures
        r == entry_matches(*e, *t),
{
    match &e.platform {
        None => false,
        Some(p) => {
            if !text_equal(&p.os, &t.os) || !text_equal(&p.architecture, &t.architecture) {
                return false;
            }
            match &t.variant {
                None => true,
                Some(v) => match &p.variant {
                    Some(w) => text_equal(w, v),
                    None => false,
                },
            }
        },
    }
}

/// The digest of the first entry of an image index that runs on the target
/// platform, if any.
pub fn select_platform(entries: &Vec<ManifestEntry>, target: &PlatformTarget) -> (r: Option<String>)
    ensures
        match first_match(entries@, *target, 0) {
            Some(i) => r matches Some(d) && d@ == entries@[i].digest@,
            None => r is None,
        },
        r matches Some(d) ==> exists|i: int|
            0 <= i < entries@.len() && (#[trigger] entries@[i]).digest@ == d@ && (
            entries@[i].platform matches Some(p) && p.os@ == target.os@ && p.architecture@
                == target.architecture@ && (target.variant matches Some(v) ==> (
            p.variant matches Some(w) && w@ == v@))),
{
    proof {
        law_selected_entry_runs_on_target(entries@, *target);
    }
    let n = entries.len();
    let mut i: usize = 0;
    while i < n
        invariant
            n == entries@.len(),
            i <= n,
            first_match(entries@, *target, 0) == first_match(entries@, *target, i as int),
        decreases n - i,
    {
        if entry_runs_on(&entries[i], target) {
            return Some(entries[i].digest.clone());
        }
        i = i + 1;
    }
    None
}

} // verus!
