//! The resolved backend target of one session, and the checks a
//! discovery reply must pass before a session may start on it.
//!
//! The surrounding shell performs the HTTP lookup; this module owns the
//! shape of the answer: normalising the user's connection URL, and
//! accepting or rejecting the backend's identity and version.

use vstd::prelude::*;
use crate::bytes::{bytes_eq, push_all};

verus! {

/// Resolved backend version, as its numeric parts.
#[derive(Clone, Copy, PartialEq, Eq, Structural, Debug)]
pub struct Version {
    pub major: u64,
    pub minor: u64,
    pub patch: u64,
}

/// Strict order on versions: by major, then minor, then patch.
pub open spec fn spec_version_lt(a: Version, b: Version) -> bool {
    ||| a.major < b.major
    ||| (a.major == b.major && a.minor < b.minor)
    ||| (a.major == b.major && a.minor == b.minor && a.patch < b.patch)
}

impl Version {
    /// Whether `self` is strictly older than `other`.
    pub fn lt(&self, other: &Version) -> (r: bool)
        ensures
            r == spec_version_lt(*self, *other),
    {
        if self.major != other.major {
            self.major < other.major
        } else if self.minor != other.minor {
            self.minor < other.minor
        } else {
            self.patch < other.patch
        }
    }
}

/// Scheme of the backend URL.
#[derive(Clone, Copy, PartialEq, Eq, Structural, Debug)]
pub enum UrlScheme {
    Http,
    Https,
}

/// Everything one session knows about its backend. Built once from a
/// successful discovery lookup and then shared read-only; every listener
/// of the session reads the same descriptor for its whole lifetime.
#[derive(Clone, Debug)]
pub struct TargetDescriptor {
    /// Scheme the backend is reached over.
    pub scheme: UrlScheme,
    /// Host name or address of the backend, as ASCII bytes.
    pub host: Vec<u8>,
    /// Port of the backend's HTTP endpoint.
    pub port: u16,
    /// Version the backend reported during discovery.
    pub version: Version,
    /// Dedicated datagram-tunnel port, when the backend offers one.
    pub tunnel_port: Option<u16>,
    /// Client-association token handed out during discovery, if any.
    pub association_token: Option<Vec<u8>>,
}

/// Why a discovery lookup was rejected.
#[derive(Clone, Copy, PartialEq, Eq, Structural, Debug)]
pub enum LookupError {
    /// The connection URL could not be parsed.
    InvalidHostTarget,
    /// The backend could not be reached.
    ConnectionFailed,
    /// The backend answered with this error status.
    ErrorResponse(u16),
    /// The backend's reply was not a readable details document.
    InvalidResponse,
    /// The reply carried no or a foreign server identifier.
    NotPocketRelay,
    /// The backend (first) is older than the least accepted version
    /// (second).
    ServerOutdated(Version, Version),
}

/// Least backend version this client accepts.
pub open spec fn spec_min_server_version() -> Version {
    Version { major: 0, minor: 5, patch: 0 }
}

/// Least backend version this client accepts.
pub fn min_server_version() -> (r: Version)
    ensures
        r == spec_min_server_version(),
{
    Version { major: 0, minor: 5, patch: 0 }
}

/// Identifier a genuine backend reports: "POCKET_RELAY_SERVER" in ASCII.
pub open spec fn spec_server_ident() -> Seq<u8> {
    seq![
        0x50u8, 0x4Fu8, 0x43u8, 0x4Bu8, 0x45u8, 0x54u8, 0x5Fu8, 0x52u8, 0x45u8, 0x4Cu8,
        0x41u8, 0x59u8, 0x5Fu8, 0x53u8, 0x45u8, 0x52u8, 0x56u8, 0x45u8, 0x52u8,
    ]
}

/// Identifier a genuine backend reports, as bytes.
pub fn server_ident() -> (r: Vec<u8>)
    ensures
        r@ == spec_server_ident(),
{
    let mut r: Vec<u8> = Vec::new();
    r.push(0x50); // P
    r.push(0x4F); // O
    r.push(0x43); // C
    r.push(0x4B); // K
    r.push(0x45); // E
    r.push(0x54); // T
    r.push(0x5F); // _
    r.push(0x52); // R
    r.push(0x45); // E
    r.push(0x4C); // L
    r.push(0x41); // A
    r.push(0x59); // Y
    r.push(0x5F); // _
    r.push(0x53); // S
    r.push(0x45); // E
    r.push(0x52); // R
    r.push(0x56); // V
    r.push(0x45); // E
    r.push(0x52); // R
    assert(r@ =~= spec_server_ident());
    r
}

/// "http://" in ASCII.
pub open spec fn spec_http_prefix() -> Seq<u8> {
    seq![0x68u8, 0x74u8, 0x74u8, 0x70u8, 0x3Au8, 0x2Fu8, 0x2Fu8]
}

/// Whether the input starts with "http://".
pub open spec fn spec_has_http_prefix(h: Seq<u8>) -> bool {
    &&& h.len() >= 7
    &&& h[0] == 0x68
    &&& h[1] == 0x74
    &&& h[2] == 0x74
    &&& h[3] == 0x70
    &&& h[4] == 0x3A
    &&& h[5] == 0x2F
    &&& h[6] == 0x2F
}

/// Whether the input starts with "https://".
pub open spec fn spec_has_https_prefix(h: Seq<u8>) -> bool {
    &&& h.len() >= 8
    &&& h[0] == 0x68
    &&& h[1] == 0x74
    &&& h[2] == 0x74
    &&& h[3] == 0x70
    &&& h[4] == 0x73
    &&& h[5] == 0x3A
    &&& h[6] == 0x2F
    &&& h[7] == 0x2F
}

/// The user's connection input made into a URL string: "http://" is
/// prefixed when no scheme is given, and a trailing slash is appended
/// when the input lacks one, so a joined path cannot be misread.
pub open spec fn spec_normalized_url(h: Seq<u8>) -> Seq<u8> {
    let with_scheme = if spec_has_http_prefix(h) || spec_has_https_prefix(h) {
        h
    } else {
        spec_http_prefix() + h
    };
    if h.len() > 0 && h[h.len() - 1] == 0x2F {
        with_scheme
    } else {
        with_scheme + seq![0x2Fu8]
    }
}

/// Normalises the user's connection input into a URL string.
pub fn normalize_connection_url(host: &Vec<u8>) -> (r: Vec<u8>)
    ensures
        r@ == spec_normalized_url(host@),
{
    let has_http = host.len() >= 7 && host[0] == 0x68 && host[1] == 0x74 && host[2] == 0x74
        && host[3] == 0x70 && host[4] == 0x3A && host[5] == 0x2F && host[6] == 0x2F;
    let has_https = host.len() >= 8 && host[0] == 0x68 && host[1] == 0x74 && host[2] == 0x74
        && host[3] == 0x70 && host[4] == 0x73 && host[5] == 0x3A && host[6] == 0x2F
        && host[7] == 0x2F;
    let mut out: Vec<u8> = Vec::new();
    if !has_http && !has_https {
        out.push(0x68);
        out.push(0x74);
        out.push(0x74);
        out.push(0x70);
        out.push(0x3A);
        out.push(0x2F);
        out.push(0x2F);
        assert(out@ =~= spec_http_prefix());
    }
    push_all(&mut out, host);
    if !(host.len() > 0 && host[host.len() - 1] == 0x2F) {
        out.push(0x2F);
    }
    proof {
        assert(out@ =~= spec_normalized_url(host@));
    }
    out
}

/// Accepts or rejects what discovery reported: the reply must carry the
/// genuine server identifier, and the reported version must not be older
/// than the least accepted one.
pub fn validate_server_details(ident: &Option<Vec<u8>>, version: Version) -> (r: Result<
    (),
    LookupError,
>)
    ensures
        r is Ok <==> (ident matches Some(id) && id@ == spec_server_ident()
            && !spec_version_lt(version, spec_min_server_version())),
        !(ident matches Some(id) && id@ == spec_server_ident())
            ==> r == Result::<(), LookupError>::Err(LookupError::NotPocketRelay),
        (ident matches Some(id) && id@ == spec_server_ident())
            && spec_version_lt(version, spec_min_server_version())
            ==> r == Result::<(), LookupError>::Err(LookupError::ServerOutdated(
                version,
                spec_min_server_version(),
            )),
{
    let expected = server_ident();
    let ident_ok = match ident {
        Some(id) => bytes_eq(id, &expected),
        None => false,
    };
    if !ident_ok {
        return Err(LookupError::NotPocketRelay);
    }
    let min = min_server_version();
    if version.lt(&min) {
        return Err(LookupError::ServerOutdated(version, min));
    }
    Ok(())
}

} // verus!
