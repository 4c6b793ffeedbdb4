//! Preparing the connection to the cluster's API server.
//!
//! The server is reached over mutually authenticated TLS, directly or
//! through a SOCKS5 proxy. Its certificate names a fixed host, whatever the
//! address in the URL. The credentials arrive as three base64 fields that
//! hold PEM text. This module decodes and checks all of them and decides the
//! route; it opens no connection. The outcome is a complete plan or an error,
//! never something in between.

use vstd::prelude::*;
use vstd::string::StringExecFns;
use crate::common::json::JsonValue;

verus! {

/// The name of the certificate authority in the document of secrets.
pub const CERTIFICATE_AUTHORITY_DATA: &'static str = "certificate-authority-data";

/// The name of the client certificate in the document of secrets.
pub const CLIENT_CERTIFICATE_DATA: &'static str = "client-certificate-data";

/// The name of the client key in the document of secrets.
pub const CLIENT_KEY_DATA: &'static str = "client-key-data";

/// The host name that the API server's certificate is issued for.
pub const TLS_SERVER_NAME: &'static str = "kube-apiserver";

/// The three credentials, each base64 of PEM text.
#[derive(Clone, Debug)]
pub struct SecretsPayload {
    pub certificate_authority_data: String,
    pub client_certificate_data: String,
    pub client_key_data: String,
}

/// One of the three credentials.
#[derive(Clone, Copy, Debug, PartialEq, Eq, Structural)]
pub enum Credential {
    CertificateAuthority,
    ClientCertificate,
    ClientKey,
}

/// Why no transport can be built.
#[derive(Clone, Copy, Debug, PartialEq, Eq, Structural)]
pub enum TransportError {
    /// The proxy address is not a URI.
    InvalidProxyAddress,
    /// The document of secrets does not hold the credential as a text.
    MissingCredential(Credential),
    /// The credential is not base64.
    InvalidBase64(Credential),
    /// The credential's PEM text is broken, or holds no block of the kind
    /// that is needed.
    MalformedPem(Credential),
}

/// How the API server is reached.
#[derive(Clone, Debug)]
pub enum Route {
    Direct,
    /// Through the SOCKS5 proxy at this address; the TLS handshake runs
    /// inside the tunnel.
    Socks5 { proxy: String },
}

/// A route as mathematical value.
pub enum RouteView {
    Direct,
    Socks5 { proxy: Seq<char> },
}

/// Everything that is needed to open the connection.
#[derive(Clone, Debug)]
pub struct TransportPlan {
    pub api_url: String,
    /// The name to validate the server's certificate against.
    pub tls_server_name: String,
    /// The trust anchors, DER.
    pub ca_certificates: Vec<Vec<u8>>,
    /// The client's certificate chain, DER.
    pub client_certificates: Vec<Vec<u8>>,
    /// The client's private key, DER.
    pub client_key: Vec<u8>,
    pub route: Route,
}

/// A plan as mathematical value.
pub struct TransportPlanView {
    pub api_url: Seq<char>,
    pub tls_server_name: Seq<char>,
    pub ca_certificates: Seq<Seq<u8>>,
    pub client_certificates: Seq<Seq<u8>>,
    pub client_key: Seq<u8>,
    pub route: RouteView,
}

impl View for TransportPlan {
    type V = TransportPlanView;

    open spec fn view(&self) -> TransportPlanView {
        TransportPlanView {
            api_url: self.api_url@,
            tls_server_name: self.tls_server_name@,
            ca_certificates: self.ca_certificates.deep_view(),
            client_certificates: self.client_certificates.deep_view(),
            client_key: self.client_key@,
            route: match self.route {
                Route::Direct => RouteView::Direct,
                Route::Socks5 { proxy } => RouteView::Socks5 { proxy: proxy@ },
            },
        }
    }
}

/// One block of a PEM text, with its DER content.
#[derive(Clone, Debug)]
pub enum PemItem {
    Certificate(Vec<u8>),
    RsaKey(Vec<u8>),
    Pkcs8Key(Vec<u8>),
    EcKey(Vec<u8>),
    Crl(Vec<u8>),
    /// A block of a kind that this library does not know.
    Other,
}

/// A PEM block as mathematical value.
pub enum PemItemView {
    Certificate(Seq<u8>),
    RsaKey(Seq<u8>),
    Pkcs8Key(Seq<u8>),
    EcKey(Seq<u8>),
    Crl(Seq<u8>),
    Other,
}

impl View for PemItem {
    type V = PemItemView;

    open spec fn view(&self) -> PemItemView {
        match *self {
            PemItem::Certificate(der) => PemItemView::Certificate(der@),
            PemItem::RsaKey(der) => PemItemView::RsaKey(der@),
            PemItem::Pkcs8Key(der) => PemItemView::Pkcs8Key(der@),
            PemItem::EcKey(der) => PemItemView::EcKey(der@),
            PemItem::Crl(der) => PemItemView::Crl(der@),
            PemItem::Other => PemItemView::Other,
        }
    }
}

/// The bytes that standard base64 text stands for; nothing if the text is
/// not standard base64 with canonical padding.
pub uninterp spec fn base64_decoded(text: Seq<char>) -> Option<Seq<u8>>;

/// The DER contents of the certificate blocks of a PEM text, in order;
/// nothing if the text is broken.
pub uninterp spec fn pem_certificates(pem: Seq<u8>) -> Option<Seq<Seq<u8>>>;

/// The first block of a PEM text that has a known kind, if the text has one;
/// nothing at all if the text is broken before that.
pub uninterp spec fn pem_first_item(pem: Seq<u8>) -> Option<Option<PemItemView>>;

/// Whether a text is a URI by the rules of the `http` crate.
pub uninterp spec fn uri_parses(text: Seq<char>) -> bool;

/// The error of `base64::decode`.
#[verifier::external_type_specification]
#[verifier::external_body]
pub struct ExDecodeError(base64::DecodeError);

/// The error of the PEM readers.
#[verifier::external_type_specification]
#[verifier::external_body]
pub struct ExIoError(std::io::Error);

/// A parsed URI.
#[verifier::external_type_specification]
#[verifier::external_body]
pub struct ExUri(hyper::Uri);

/// The error of URI parsing.
#[verifier::external_type_specification]
#[verifier::external_body]
pub struct ExInvalidUri(hyper::http::uri::InvalidUri);

/// `base64::decode`: decodes standard base64. The result depends on the
/// text alone, so it has a name, `base64_decoded`.
#[verifier::external_body]
#[allow(deprecated)]
fn base64_decode(text: &str) -> (decoded: Result<Vec<u8>, base64::DecodeError>)
    ensures
        decoded is Ok == base64_decoded(text@) is Some,
        decoded matches Ok(bytes) ==> Some(bytes@) == base64_decoded(text@),
{
    base64::decode(text)
}

/// `rustls_pemfile::certs` on bytes in memory: the DER contents of all
/// certificate blocks, other blocks skipped. The result depends on the bytes
/// alone, so it has a name, `pem_certificates`.
#[verifier::external_body]
fn read_pem_certificates(pem: &[u8]) -> (certs: Result<Vec<Vec<u8>>, std::io::Error>)
    ensures
        certs is Ok == pem_certificates(pem@) is Some,
        certs matches Ok(list) ==> Some(list.deep_view()) == pem_certificates(pem@),
{
    let mut reader = pem;
    rustls_pemfile::certs(&mut reader)
}

/// `rustls_pemfile::read_one` on bytes in memory: the first block of a known
/// kind. The result depends on the bytes alone, so it has a name,
/// `pem_first_item`.
#[verifier::external_body]
fn read_pem_first_item(pem: &[u8]) -> (item: Result<Option<PemItem>, std::io::Error>)
    ensures
        item is Ok == pem_first_item(pem@) is Some,
        item matches Ok(found) ==> pem_first_item(pem@) == Some(
            match found {
                Some(block) => Some(block@),
                None => None,
            },
        ),
{
    let mut reader = pem;
    Ok(
        match rustls_pemfile::read_one(&mut reader)? {
            Some(rustls_pemfile::Item::X509Certificate(der)) => Some(PemItem::Certificate(der)),
            Some(rustls_pemfile::Item::RSAKey(der)) => Some(PemItem::RsaKey(der)),
            Some(rustls_pemfile::Item::PKCS8Key(der)) => Some(PemItem::Pkcs8Key(der)),
            Some(rustls_pemfile::Item::ECKey(der)) => Some(PemItem::EcKey(der)),
            Some(rustls_pemfile::Item::Crl(der)) => Some(PemItem::Crl(der)),
            Some(_) => Some(PemItem::Other),
            None => None,
        },
    )
}

/// `Uri::from_str` of the `http` crate, as `hyper` hands it on. Whether it
/// succeeds depends on the text alone, so that has a name, `uri_parses`.
#[verifier::external_body]
fn parse_uri(text: &str) -> (uri: Result<hyper::Uri, hyper::http::uri::InvalidUri>)
    ensures
        uri is Ok == uri_parses(text@),
{
    text.parse::<hyper::Uri>()
}

/// The private key that a PEM block holds, if it is a key.
pub open spec fn private_key_of(item: Option<PemItemView>) -> Option<Seq<u8>> {
    match item {
        Some(PemItemView::RsaKey(der)) => Some(der),
        Some(PemItemView::Pkcs8Key(der)) => Some(der),
        Some(PemItemView::EcKey(der)) => Some(der),
        _ => None,
    }
}

/// The certificates of a credential: its text decoded from base64 and read
/// as PEM, which must hold a certificate.
pub open spec fn certificates_of(text: Seq<char>, which: Credential) -> Result<
    Seq<Seq<u8>>,
    TransportError,
> {
    match base64_decoded(text) {
        None => Err(TransportError::InvalidBase64(which)),
        Some(pem) => match pem_certificates(pem) {
            Some(list) if list.len() > 0 => Ok(list),
            _ => Err(TransportError::MalformedPem(which)),
        },
    }
}

/// The private key of the key credential: its text decoded from base64 and
/// read as PEM, whose first block must be a key.
pub open spec fn client_key_of(text: Seq<char>) -> Result<Seq<u8>, TransportError> {
    match base64_decoded(text) {
        None => Err(TransportError::InvalidBase64(Credential::ClientKey)),
        Some(pem) => match pem_first_item(pem) {
            Some(item) if private_key_of(item) is Some => Ok(private_key_of(item).unwrap()),
            _ => Err(TransportError::MalformedPem(Credential::ClientKey)),
        },
    }
}

/// The route for a proxy address, if one is given.
pub open spec fn route_of(proxy: Option<Seq<char>>) -> Result<RouteView, TransportError> {
    match proxy {
        None => Ok(RouteView::Direct),
        Some(address) => if uri_parses(address) {
            Ok(RouteView::Socks5 { proxy: address })
        } else {
            Err(TransportError::InvalidProxyAddress)
        },
    }
}

/// The plan for a server, credentials and an optional proxy, or the first
/// error met: the proxy address is checked first, then the certificate
/// authority, the client certificate and the client key.
pub open spec fn transport_plan_of(
    api_url: Seq<char>,
    authority: Seq<char>,
    certificate: Seq<char>,
    key: Seq<char>,
    proxy: Option<Seq<char>>,
) -> Result<TransportPlanView, TransportError> {
    match route_of(proxy) {
        Err(e) => Err(e),
        Ok(route) => match certificates_of(authority, Credential::CertificateAuthority) {
            Err(e) => Err(e),
            Ok(ca_certificates) => match certificates_of(
                certificate,
                Credential::ClientCertificate,
            ) {
                Err(e) => Err(e),
                Ok(client_certificates) => match client_key_of(key) {
                    Err(e) => Err(e),
                    Ok(client_key) => Ok(
                        TransportPlanView {
                            api_url,
                            tls_server_name: TLS_SERVER_NAME@,
                            ca_certificates,
                            client_certificates,
                            client_key,
                            route,
                        },
                    ),
                },
            },
        },
    }
}

/// What a decoded certificate credential gives: the certificates read, or
/// the error for a failed read or an empty list.
pub fn accept_certificates(
    read: Result<Vec<Vec<u8>>, std::io::Error>,
    which: Credential,
) -> (certs: Result<Vec<Vec<u8>>, TransportError>)
    ensures
        match read {
            Ok(list) if list@.len() > 0 => certs == Ok::<Vec<Vec<u8>>, TransportError>(list),
            _ => certs == Err::<Vec<Vec<u8>>, TransportError>(TransportError::MalformedPem(which)),
        },
{
    match read {
        Ok(list) => {
            if list.len() > 0 {
                Ok(list)
            } else {
                Err(TransportError::MalformedPem(which))
            }
        },
        Err(_) => Err(TransportError::MalformedPem(which)),
    }
}

/// What a decoded key credential gives: the key of the first PEM block, or
/// the error if the read failed or the block is no private key.
pub fn accept_private_key(read: Result<Option<PemItem>, std::io::Error>) -> (key: Result<
    Vec<u8>,
    TransportError,
>)
    ensures
        match read {
            Ok(Some(PemItem::RsaKey(der))) | Ok(Some(PemItem::Pkcs8Key(der))) | Ok(
                Some(PemItem::EcKey(der)),
            ) => key == Ok::<Vec<u8>, TransportError>(der),
            _ => key == Err::<Vec<u8>, TransportError>(
                TransportError::MalformedPem(Credential::ClientKey),
            ),
        },
{
    match read {
        Ok(Some(PemItem::RsaKey(der))) => Ok(der),
        Ok(Some(PemItem::Pkcs8Key(der))) => Ok(der),
        Ok(Some(PemItem::EcKey(der))) => Ok(der),
        _ => Err(TransportError::MalformedPem(Credential::ClientKey)),
    }
}

/// What the decoding of a certificate credential gives: the certificates of
/// the decoded PEM text, or the error for a text that is not base64.
pub fn certificates_from_decoded(
    decoded: Result<Vec<u8>, base64::DecodeError>,
    which: Credential,
) -> (certs: Result<Vec<Vec<u8>>, TransportError>)
    ensures
        match decoded {
            Err(_) => certs == Err::<Vec<Vec<u8>>, TransportError>(
                TransportError::InvalidBase64(which),
            ),
            Ok(pem) => match pem_certificates(pem@) {
                Some(list) if list.len() > 0 => certs is Ok && certs->Ok_0.deep_view() == list,
                _ => certs == Err::<Vec<Vec<u8>>, TransportError>(
                    TransportError::MalformedPem(which),
                ),
            },
        },
{
    match decoded {
        Err(_) => Err(TransportError::InvalidBase64(which)),
        Ok(pem) => {
            let read = read_pem_certificates(pem.as_slice());
            proof {
                if read is Ok {
                    assert(read->Ok_0.deep_view().len() == read->Ok_0@.len());
                }
            }
            accept_certificates(read, which)
        },
    }
}

/// What the decoding of the key credential gives: the key in the first
/// block of the decoded PEM text, or the error for a text that is not
/// base64.
pub fn key_from_decoded(decoded: Result<Vec<u8>, base64::DecodeError>) -> (key: Result<
    Vec<u8>,
    TransportError,
>)
    ensures
        match decoded {
            Err(_) => key == Err::<Vec<u8>, TransportError>(
                TransportError::InvalidBase64(Credential::ClientKey),
            ),
            Ok(pem) => match pem_first_item(pem@) {
                Some(item) if private_key_of(item) is Some => key is Ok && key->Ok_0@
                    == private_key_of(item)->0,
                _ => key == Err::<Vec<u8>, TransportError>(
                    TransportError::MalformedPem(Credential::ClientKey),
                ),
            },
        },
{
    match decoded {
        Err(_) => Err(TransportError::InvalidBase64(Credential::ClientKey)),
        Ok(pem) => accept_private_key(read_pem_first_item(pem.as_slice())),
    }
}

/// What the parsing of a proxy address gives: the route through the proxy
/// at `address`, or the error for an address that did not parse.
pub fn route_from_parsed(
    parsed: Result<hyper::Uri, hyper::http::uri::InvalidUri>,
    address: &str,
) -> (route: Result<Route, TransportError>)
    ensures
        match parsed {
            Ok(_) => route matches Ok(Route::Socks5 { proxy }) && proxy@ == address@,
            Err(_) => route matches Err(TransportError::InvalidProxyAddress),
        },
{
    match parsed {
        Ok(_) => Ok(Route::Socks5 { proxy: String::from_str(address) }),
        Err(_) => Err(TransportError::InvalidProxyAddress),
    }
}

fn decode_certificates(text: &str, which: Credential) -> (certs: Result<
    Vec<Vec<u8>>,
    TransportError,
>)
    ensures
        certs is Ok == certificates_of(text@, which) is Ok,
        certs matches Ok(list) ==> Ok::<Seq<Seq<u8>>, TransportError>(list.deep_view())
            == certificates_of(text@, which),
        certs matches Err(e) ==> Err::<Seq<Seq<u8>>, TransportError>(e) == certificates_of(
            text@,
            which,
        ),
{
    certificates_from_decoded(base64_decode(text), which)
}

fn decode_client_key(text: &str) -> (key: Result<Vec<u8>, TransportError>)
    ensures
        key is Ok == client_key_of(text@) is Ok,
        key matches Ok(der) ==> Ok::<Seq<u8>, TransportError>(der@) == client_key_of(text@),
        key matches Err(e) ==> Err::<Seq<u8>, TransportError>(e) == client_key_of(text@),
{
    key_from_decoded(base64_decode(text))
}

fn decide_route(proxy: Option<&str>) -> (route: Result<Route, TransportError>)
    ensures
        match route {
            Ok(Route::Direct) => route_of(
                match proxy {
                    Some(address) => Some(address@),
                    None => None,
                },
            ) == Ok::<RouteView, TransportError>(RouteView::Direct),
            Ok(Route::Socks5 { proxy: address }) => route_of(
                match proxy {
                    Some(address) => Some(address@),
                    None => None,
                },
            ) == Ok::<RouteView, TransportError>(RouteView::Socks5 { proxy: address@ }),
            Err(e) => route_of(
                match proxy {
                    Some(address) => Some(address@),
                    None => None,
                },
            ) == Err::<RouteView, TransportError>(e),
        },
{
    match proxy {
        None => Ok(Route::Direct),
        Some(address) => route_from_parsed(parse_uri(address), address),
    }
}

/// Plans the transport to the API server at `api_url` with the credentials
/// in `secrets`, through the SOCKS5 proxy at `proxy` if one is given.
pub fn plan_transport(api_url: &str, secrets: &SecretsPayload, proxy: Option<&str>) -> (plan:
    Result<TransportPlan, TransportError>)
    ensures
        plan is Ok == transport_plan_of(
            api_url@,
            secrets.certificate_authority_data@,
            secrets.client_certificate_data@,
            secrets.client_key_data@,
            match proxy {
                Some(address) => Some(address@),
                None => None,
            },
        ) is Ok,
        plan matches Ok(p) ==> Ok::<TransportPlanView, TransportError>(p@) == transport_plan_of(
            api_url@,
            secrets.certificate_authority_data@,
            secrets.client_certificate_data@,
            secrets.client_key_data@,
            match proxy {
                Some(address) => Some(address@),
                None => None,
            },
        ),
        plan matches Err(e) ==> Err::<TransportPlanView, TransportError>(e) == transport_plan_of(
            api_url@,
            secrets.certificate_authority_data@,
            secrets.client_certificate_data@,
            secrets.client_key_data@,
            match proxy {
                Some(address) => Some(address@),
                None => None,
            },
        ),
{
    let route = match decide_route(proxy) {
        Ok(route) => route,
        Err(e) => {
            return Err(e);
        },
    };
    let ca_certificates = match decode_certificates(
        secrets.certificate_authority_data.as_str(),
        Credential::CertificateAuthority,
    ) {
        Ok(list) => list,
        Err(e) => {
            return Err(e);
        },
    };
    let client_certificates = match decode_certificates(
        secrets.client_certificate_data.as_str(),
        Credential::ClientCertificate,
    ) {
        Ok(list) => list,
        Err(e) => {
            return Err(e);
        },
    };
    let client_key = match decode_client_key(secrets.client_key_data.as_str()) {
        Ok(der) => der,
        Err(e) => {
            return Err(e);
        },
    };
    Ok(
        TransportPlan {
            api_url: String::from_str(api_url),
            tls_server_name: String::from_str(TLS_SERVER_NAME),
            ca_certificates,
            client_certificates,
            client_key,
            route,
        },
    )
}

/// The transport is all or nothing: a plan exists exactly when the proxy
/// address, if any, and all three credentials are good, and then it holds at
/// least one trust anchor and one client certificate, names the fixed server
/// name, and routes through the proxy exactly when one was given.
pub proof fn lemma_plan_is_complete(
    api_url: Seq<char>,
    authority: Seq<char>,
    certificate: Seq<char>,
    key: Seq<char>,
    proxy: Option<Seq<char>>,
)
    ensures
        transport_plan_of(api_url, authority, certificate, key, proxy) is Ok <==> route_of(proxy)
            is Ok && certificates_of(authority, Credential::CertificateAuthority) is Ok
            && certificates_of(certificate, Credential::ClientCertificate) is Ok && client_key_of(
            key,
        ) is Ok,
        transport_plan_of(api_url, authority, certificate, key, proxy) matches Ok(plan) ==> {
            &&& plan.ca_certificates.len() > 0
            &&& plan.client_certificates.len() > 0
            &&& plan.tls_server_name == TLS_SERVER_NAME@
            &&& plan.api_url == api_url
            &&& plan.route is Socks5 <==> proxy is Some
        },
{
}

/// A key credential that is not base64 fails the plan with that error,
/// whenever the proxy address and the two certificate credentials are good.
pub proof fn lemma_bad_key_encoding_fails(
    api_url: Seq<char>,
    authority: Seq<char>,
    certificate: Seq<char>,
    key: Seq<char>,
    proxy: Option<Seq<char>>,
)
    requires
        base64_decoded(key) is None,
        route_of(proxy) is Ok,
        certificates_of(authority, Credential::CertificateAuthority) is Ok,
        certificates_of(certificate, Credential::ClientCertificate) is Ok,
    ensures
        transport_plan_of(api_url, authority, certificate, key, proxy) == Err::<
            TransportPlanView,
            TransportError,
        >(TransportError::InvalidBase64(Credential::ClientKey)),
{
}

/// The three credentials of a document of secrets, or the first that it
/// does not hold as a text.
pub open spec fn secrets_of(document: JsonValue) -> Result<
    (Seq<char>, Seq<char>, Seq<char>),
    TransportError,
> {
    match document.field_text(CERTIFICATE_AUTHORITY_DATA@) {
        None => Err(TransportError::MissingCredential(Credential::CertificateAuthority)),
        Some(authority) => match document.field_text(CLIENT_CERTIFICATE_DATA@) {
            None => Err(TransportError::MissingCredential(Credential::ClientCertificate)),
            Some(certificate) => match document.field_text(CLIENT_KEY_DATA@) {
                None => Err(TransportError::MissingCredential(Credential::ClientKey)),
                Some(key) => Ok((authority, certificate, key)),
            },
        },
    }
}

impl SecretsPayload {
    /// Takes the three credentials out of a document of secrets.
    pub fn from_document(document: &JsonValue) -> (secrets: Result<SecretsPayload, TransportError>)
        ensures
            secrets is Ok == secrets_of(*document) is Ok,
            secrets matches Ok(found) ==> Ok::<(Seq<char>, Seq<char>, Seq<char>), TransportError>(
                (
                    found.certificate_authority_data@,
                    found.client_certificate_data@,
                    found.client_key_data@,
                ),
            ) == secrets_of(*document),
            secrets matches Err(e) ==> Err::<(Seq<char>, Seq<char>, Seq<char>), TransportError>(e)
                == secrets_of(*document),
    {
        let authority = match document.get_str(CERTIFICATE_AUTHORITY_DATA) {
            Some(text) => String::from_str(text),
            None => {
                return Err(TransportError::MissingCredential(Credential::CertificateAuthority));
            },
        };
        let certificate = match document.get_str(CLIENT_CERTIFICATE_DATA) {
            Some(text) => String::from_str(text),
            None => {
                return Err(TransportError::MissingCredential(Credential::ClientCertificate));
            },
        };
        let key = match document.get_str(CLIENT_KEY_DATA) {
            Some(text) => String::from_str(text),
            None => {
                return Err(TransportError::MissingCredential(Credential::ClientKey));
            },
        };
        Ok(
            SecretsPayload {
                certificate_authority_data: authority,
                client_certificate_data: certificate,
                client_key_data: key,
            },
        )
    }
}

} // verus!
