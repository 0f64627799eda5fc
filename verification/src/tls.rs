//! Certificate loading and the HTTP client factory. A CA certificate is held
//! as its raw PEM bytes in a `TrustAnchor` once the parser has accepted them;
//! the factory installs it as an additional root of trust and selects the
//! platform-native TLS backend. The outside calls stand behind trusted
//! wrappers; everything around them is verified.

use vstd::prelude::*;

verus! {

/// Whether a byte buffer parses as a PEM-encoded certificate: what
/// `reqwest::Certificate::from_pem` accepts, a function of the bytes alone.
pub uninterp spec fn pem_parses(pem: Seq<u8>) -> bool;

#[verifier::external_type_specification]
#[verifier::external_body]
pub struct ExCertificate(reqwest::Certificate);

#[verifier::external_type_specification]
#[verifier::external_body]
pub struct ExClient(reqwest::Client);

/// Relies on `reqwest::Certificate::from_pem`: it parses the buffer as a
/// PEM-encoded certificate, succeeding or failing on the bytes alone.
#[verifier::external_body]
fn parse_pem_certificate(pem: &Vec<u8>) -> (r: Result<reqwest::Certificate, String>)
    ensures
        r is Ok <==> pem_parses(pem@),
{
    reqwest::Certificate::from_pem(pem.as_slice()).map_err(|e| e.to_string())
}

/// Relies on `reqwest::ClientBuilder`: `add_root_certificate` installs the
/// certificate as an additional root of trust, `use_native_tls` selects the
/// platform TLS backend, and `build` fails only if that backend rejects the
/// configuration.
#[verifier::external_body]
fn build_native_tls_client(cert: reqwest::Certificate) -> (r: Result<reqwest::Client, String>) {
    reqwest::Client::builder()
        .add_root_certificate(cert)
        .use_native_tls()
        .build()
        .map_err(|e| e.to_string())
}

/// A CA certificate held as the PEM bytes it was loaded from, known to parse.
pub struct TrustAnchor {
    pem: Vec<u8>,
}

impl View for TrustAnchor {
    type V = Seq<u8>;

    closed spec fn view(&self) -> Seq<u8> {
        self.pem@
    }
}

impl TrustAnchor {
    /// The held bytes parse as a PEM certificate.
    pub open spec fn valid(&self) -> bool {
        pem_parses(self@)
    }

    /// The exact bytes the anchor was loaded from.
    pub fn pem_bytes(&self) -> (b: &Vec<u8>)
        ensures
            b@ == self@,
    {
        &self.pem
    }
}

/// What loading a PEM buffer yields, seen abstractly: the anchor's bytes on
/// success, nothing on failure.
pub open spec fn anchor_view(r: Result<TrustAnchor, String>) -> Option<Seq<u8>> {
    match r {
        Ok(a) => Some(a@),
        Err(_) => None,
    }
}

/// The contract of certificate loading: it succeeds exactly when the bytes
/// parse, and the anchor holds exactly the bytes it was given.
pub open spec fn loads_to(pem: Seq<u8>, r: Option<Seq<u8>>) -> bool {
    &&& r is Some <==> pem_parses(pem)
    &&& r matches Some(b) ==> b == pem
}

/// Loads a CA certificate from its PEM bytes: accepted exactly when the
/// parser accepts the bytes, and the anchor keeps them unchanged. On failure,
/// the parser's message.
pub fn load_trust_anchor(pem: Vec<u8>) -> (r: Result<TrustAnchor, String>)
    ensures
        loads_to(pem@, anchor_view(r)),
        r is Ok <==> pem_parses(pem@),
        r matches Ok(a) ==> a@ == pem@ && a.valid(),
{
    match parse_pem_certificate(&pem) {
        Ok(_) => Ok(TrustAnchor { pem }),
        Err(e) => Err(e),
    }
}

/// Law: certificate loading is idempotent — two loads of the same PEM bytes
/// have the same outcome and yield anchors with the same contents, hence the
/// same trust configuration.
pub proof fn lemma_certificate_loading_idempotent(
    pem: Seq<u8>,
    r1: Option<Seq<u8>>,
    r2: Option<Seq<u8>>,
)
    requires
        loads_to(pem, r1),
        loads_to(pem, r2),
    ensures
        r1 == r2,
{
    if pem_parses(pem) {
        assert(r1 == Some(pem));
        assert(r2 == Some(pem));
    } else {
        assert(r1 is None);
        assert(r2 is None);
    }
}

/// Why the factory produced no client.
pub enum ClientError {
    /// The PEM buffer did not parse: the parser's message.
    InvalidCertificate(String),
    /// The TLS backend rejected the configuration: the builder's message.
    TlsBackend(String),
}

/// Builds the reusable HTTPS client from a loaded anchor: its certificate is
/// installed as an additional root of trust and the platform-native TLS
/// backend is selected. The anchor's bytes are known to parse, so a failure
/// can only come from the TLS backend.
pub fn build_client(anchor: &TrustAnchor) -> (r: Result<reqwest::Client, ClientError>)
    requires
        anchor.valid(),
    ensures
        r matches Err(e) ==> e is TlsBackend,
{
    let cert = match parse_pem_certificate(anchor.pem_bytes()) {
        Ok(c) => c,
        Err(_) => {
            proof {
                assert(false);
            }
            return Err(ClientError::TlsBackend(String::new()));
        },
    };
    match build_native_tls_client(cert) {
        Ok(client) => Ok(client),
        Err(e) => Err(ClientError::TlsBackend(e)),
    }
}

/// The whole factory in one step, from the raw PEM bytes: load the anchor,
/// then build the client. The error says which phase refused: the bytes were
/// rejected by the parser exactly when they do not parse; otherwise only the
/// TLS backend can refuse.
pub fn client_from_pem(pem: Vec<u8>) -> (r: Result<reqwest::Client, ClientError>)
    ensures
        !pem_parses(pem@) <==> (r matches Err(e) && e is InvalidCertificate),
{
    match load_trust_anchor(pem) {
        Ok(anchor) => match build_client(&anchor) {
            Ok(client) => Ok(client),
            Err(e) => Err(e),
        },
        Err(msg) => Err(ClientError::InvalidCertificate(msg)),
    }
}

} // verus!
