//! The TLS certificate chain and private key the server presents, read from PEM text.
use vstd::prelude::*;

verus! {

/// `std::io::Error`, the error the PEM reader reports for a malformed section.
#[verifier::external_type_specification]
#[verifier::external_body]
pub struct ExIoError(std::io::Error);

/// What `rustls_pemfile::certs` yields for the PEM text `pem`, collected: the DER bytes
/// of its certificates in order, or `None` when it reports an error.
pub uninterp spec fn pem_certificates(pem: Seq<u8>) -> Option<Seq<Seq<u8>>>;

/// The first item that `rustls_pemfile::pkcs8_private_keys` yields for `pem`: none,
/// a key's DER bytes, or an error.
pub uninterp spec fn pem_first_pkcs8_key(pem: Seq<u8>) -> Option<Result<Seq<u8>, ()>>;

/// The first item that `rustls_pemfile::rsa_private_keys` yields for `pem`.
pub uninterp spec fn pem_first_rsa_key(pem: Seq<u8>) -> Option<Result<Seq<u8>, ()>>;

/// The first item that `rustls_pemfile::ec_private_keys` yields for `pem`.
pub uninterp spec fn pem_first_ec_key(pem: Seq<u8>) -> Option<Result<Seq<u8>, ()>>;

pub open spec fn byte_views(v: Seq<Vec<u8>>) -> Seq<Seq<u8>> {
    v.map_values(|x: Vec<u8>| x@)
}

/// The contents of a key search result, with the error left out.
pub open spec fn key_item_view(r: Option<Result<Vec<u8>, std::io::Error>>) -> Option<
    Result<Seq<u8>, ()>,
> {
    match r {
        None => None,
        Some(Ok(k)) => Some(Ok(k@)),
        Some(Err(_)) => Some(Err(())),
    }
}

/// The certificates in `pem` (`rustls_pemfile::certs`, collected). The result is a
/// function of the text.
#[verifier::external_body]
fn read_pem_certificates(pem: &[u8]) -> (r: Result<Vec<Vec<u8>>, std::io::Error>)
    ensures
        match r {
            Ok(v) => pem_certificates(pem@) == Some(byte_views(v@)),
            Err(_) => pem_certificates(pem@) is None,
        },
{
    let mut rd = pem;
    rustls_pemfile::certs(&mut rd).map(|c| c.map(|d| d.to_vec())).collect()
}

/// The first PKCS#8 private key in `pem` (`rustls_pemfile::pkcs8_private_keys`).
#[verifier::external_body]
fn first_pkcs8_key(pem: &[u8]) -> (r: Option<Result<Vec<u8>, std::io::Error>>)
    ensures
        key_item_view(r) == pem_first_pkcs8_key(pem@),
{
    let mut rd = std::io::BufReader::new(pem);
    let first = rustls_pemfile::pkcs8_private_keys(&mut rd).next();
    first.map(|item| item.map(|k| k.secret_pkcs8_der().to_vec()))
}

/// The first PKCS#1 (RSA) private key in `pem` (`rustls_pemfile::rsa_private_keys`).
#[verifier::external_body]
fn first_rsa_key(pem: &[u8]) -> (r: Option<Result<Vec<u8>, std::io::Error>>)
    ensures
        key_item_view(r) == pem_first_rsa_key(pem@),
{
    let mut rd = std::io::BufReader::new(pem);
    let first = rustls_pemfile::rsa_private_keys(&mut rd).next();
    first.map(|item| item.map(|k| k.secret_pkcs1_der().to_vec()))
}

/// The first SEC1 (EC) private key in `pem` (`rustls_pemfile::ec_private_keys`).
#[verifier::external_body]
fn first_ec_key(pem: &[u8]) -> (r: Option<Result<Vec<u8>, std::io::Error>>)
    ensures
        key_item_view(r) == pem_first_ec_key(pem@),
{
    let mut rd = std::io::BufReader::new(pem);
    let first = rustls_pemfile::ec_private_keys(&mut rd).next();
    first.map(|item| item.map(|k| k.secret_sec1_der().to_vec()))
}

/// Why the TLS material cannot be used.
#[derive(Debug)]
pub enum TlsError {
    /// The PEM text could not be read.
    Pem(std::io::Error),
    /// The certificate file holds no certificate.
    NoCertificates,
    /// The key file holds no PKCS#8, RSA or EC private key.
    NoPrivateKey,
    /// The self-signed certificate could not be generated.
    Generate(rcgen::Error),
}

/// The certificate chain from what the PEM reader found: an error when it failed or
/// found no certificate.
pub fn certificate_chain(found: Result<Vec<Vec<u8>>, std::io::Error>) -> (r: Result<
    Vec<Vec<u8>>,
    TlsError,
>)
    ensures
        match found {
            Ok(v) => if v@.len() == 0 {
                r matches Err(TlsError::NoCertificates)
            } else {
                r matches Ok(c) && c@ == v@
            },
            Err(e) => r matches Err(TlsError::Pem(x)) && x == e,
        },
{
    match found {
        Ok(v) => if v.len() == 0 {
            Err(TlsError::NoCertificates)
        } else {
            Ok(v)
        },
        Err(e) => Err(TlsError::Pem(e)),
    }
}

/// The certificates of a PEM certificate file; at least one is required.
pub fn read_certificate_chain(pem: &[u8]) -> (r: Result<Vec<Vec<u8>>, TlsError>)
    ensures
        match pem_certificates(pem@) {
            Some(v) => if v.len() == 0 {
                r matches Err(TlsError::NoCertificates)
            } else {
                r matches Ok(c) && byte_views(c@) == v
            },
            None => r matches Err(TlsError::Pem(_)),
        },
{
    certificate_chain(read_pem_certificates(pem))
}

/// The private key chosen from what the three searches found, in order of preference:
/// PKCS#8, then RSA, then EC. A search that failed ends the choice with its error.
pub fn choose_private_key(
    pkcs8: Option<Result<Vec<u8>, std::io::Error>>,
    rsa: Option<Result<Vec<u8>, std::io::Error>>,
    ec: Option<Result<Vec<u8>, std::io::Error>>,
) -> (r: Result<Vec<u8>, TlsError>)
    ensures
        match pkcs8 {
            Some(Ok(k)) => r matches Ok(x) && x@ == k@,
            Some(Err(e)) => r matches Err(TlsError::Pem(x)) && x == e,
            None => match rsa {
                Some(Ok(k)) => r matches Ok(x) && x@ == k@,
                Some(Err(e)) => r matches Err(TlsError::Pem(x)) && x == e,
                None => match ec {
                    Some(Ok(k)) => r matches Ok(x) && x@ == k@,
                    Some(Err(e)) => r matches Err(TlsError::Pem(x)) && x == e,
                    None => r matches Err(TlsError::NoPrivateKey),
                },
            },
        },
{
    match pkcs8 {
        Some(Ok(k)) => return Ok(k),
        Some(Err(e)) => return Err(TlsError::Pem(e)),
        None => {},
    }
    match rsa {
        Some(Ok(k)) => return Ok(k),
        Some(Err(e)) => return Err(TlsError::Pem(e)),
        None => {},
    }
    match ec {
        Some(Ok(k)) => Ok(k),
        Some(Err(e)) => Err(TlsError::Pem(e)),
        None => Err(TlsError::NoPrivateKey),
    }
}

/// The private key in a PEM key file: the first PKCS#8 key, else the first RSA key,
/// else the first EC key.
pub fn read_private_key(key_pem: &[u8]) -> (r: Result<Vec<u8>, TlsError>)
    ensures
        match pem_first_pkcs8_key(key_pem@) {
            Some(Ok(k)) => r matches Ok(x) && x@ == k,
            Some(Err(_)) => r matches Err(TlsError::Pem(_)),
            None => match pem_first_rsa_key(key_pem@) {
                Some(Ok(k)) => r matches Ok(x) && x@ == k,
                Some(Err(_)) => r matches Err(TlsError::Pem(_)),
                None => match pem_first_ec_key(key_pem@) {
                    Some(Ok(k)) => r matches Ok(x) && x@ == k,
                    Some(Err(_)) => r matches Err(TlsError::Pem(_)),
                    None => r matches Err(TlsError::NoPrivateKey),
                },
            },
        },
{
    let pkcs8 = first_pkcs8_key(key_pem);
    let rsa = first_rsa_key(key_pem);
    let ec = first_ec_key(key_pem);
    choose_private_key(pkcs8, rsa, ec)
}


// ---------------------------------------------------------------------------
// Self-signed certificates
// ---------------------------------------------------------------------------

/// `rcgen::Certificate`: a generated certificate with its key pair.
#[verifier::external_type_specification]
#[verifier::external_body]
pub struct ExCertificate(rcgen::Certificate);

/// `rcgen::Error`, the error of certificate generation.
#[verifier::external_type_specification]
#[verifier::external_body]
pub struct ExRcgenError(rcgen::Error);

/// A self-signed certificate for the given subject names
/// (`rcgen::generate_simple_self_signed`). Its key pair is drawn at random, so nothing
/// is stated of the result.
#[verifier::external_body]
fn generate_self_signed(names: Vec<String>) -> (r: Result<rcgen::Certificate, rcgen::Error>) {
    rcgen::generate_simple_self_signed(names)
}

/// The certificate in DER form (`Certificate::serialize_der`); it depends on the random
/// key, so nothing is stated of it.
#[verifier::external_body]
fn certificate_der(cert: &rcgen::Certificate) -> (r: Result<Vec<u8>, rcgen::Error>) {
    cert.serialize_der()
}

/// The certificate's private key in DER form (`Certificate::serialize_private_key_der`).
/// It panics only for a remote key pair, which a generated certificate never holds.
#[verifier::external_body]
fn private_key_der(cert: &rcgen::Certificate) -> (r: Vec<u8>) {
    cert.serialize_private_key_der()
}

/// The names a self-signed certificate is made for.
pub fn self_signed_names() -> (r: Vec<String>)
    ensures
        r@.len() == 2,
        r@[0]@ == "localhost"@,
        r@[1]@ == "127.0.0.1"@,
{
    let mut v: Vec<String> = Vec::new();
    v.push(crate::text::owned("localhost"));
    v.push(crate::text::owned("127.0.0.1"));
    v
}

/// A self-signed certificate for "localhost" and "127.0.0.1" and its private key, both
/// in DER form; a generation failure is reported as such.
pub fn self_signed_material() -> (r: Result<(Vec<u8>, Vec<u8>), TlsError>)
    ensures
        r is Err ==> r matches Err(TlsError::Generate(_)),
{
    let cert = match generate_self_signed(self_signed_names()) {
        Ok(c) => c,
        Err(e) => {
            return Err(TlsError::Generate(e));
        },
    };
    let der = match certificate_der(&cert) {
        Ok(d) => d,
        Err(e) => {
            return Err(TlsError::Generate(e));
        },
    };
    let key = private_key_der(&cert);
    Ok((der, key))
}

} // verus!
