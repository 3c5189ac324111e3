//! The TLS material of the HTTPS listener: the certificate chain and the
//! one private key, read from PEM text.

use vstd::prelude::*;

verus! {

/// The DER bytes of the certificates in PEM text, in order, or `None` where
/// the text is malformed.
pub uninterp spec fn pem_certificates(pem: Seq<u8>) -> Option<Seq<Seq<u8>>>;

/// The DER bytes of the PKCS #8 private keys in PEM text, in order, or
/// `None` where the text is malformed.
pub uninterp spec fn pem_pkcs8_keys(pem: Seq<u8>) -> Option<Seq<Seq<u8>>>;

pub open spec fn der_items(v: Seq<Vec<u8>>) -> Seq<Seq<u8>> {
    v.map_values(|b: Vec<u8>| b@)
}

pub open spec fn items_view(r: Option<Vec<Vec<u8>>>) -> Option<Seq<Seq<u8>>> {
    match r {
        Some(v) => Some(der_items(v@)),
        None => None,
    }
}

/// Relies on rustls_pemfile::certs: the DER bytes of every certificate
/// section of the text, in order, other sections skipped; an error where
/// the text is malformed. It reads the bytes it is given and nothing else.
#[verifier::external_body]
fn read_certificates(pem: &[u8]) -> (r: Option<Vec<Vec<u8>>>)
    ensures
        items_view(r) == pem_certificates(pem@),
{
    let mut reader: &[u8] = pem;
    rustls_pemfile::certs(&mut reader).ok()
}

/// Relies on rustls_pemfile::pkcs8_private_keys: the DER bytes of every
/// PKCS #8 key section of the text, in order, other sections skipped; an
/// error where the text is malformed. It reads the bytes it is given and
/// nothing else.
#[verifier::external_body]
fn read_pkcs8_keys(pem: &[u8]) -> (r: Option<Vec<Vec<u8>>>)
    ensures
        items_view(r) == pem_pkcs8_keys(pem@),
{
    let mut reader: &[u8] = pem;
    rustls_pemfile::pkcs8_private_keys(&mut reader).ok()
}

#[derive(Clone, Copy, Debug, PartialEq, Eq, Structural)]
pub enum TlsError {
    /// The certificate file is not PEM text.
    MalformedCertificates,
    /// The key file is not PEM text.
    MalformedKey,
    /// The key file holds no PKCS #8 private key.
    NoPrivateKey,
}

pub open spec fn tls_error_text(e: TlsError) -> Seq<char> {
    match e {
        TlsError::MalformedCertificates => "Could not read the certificate chain."@,
        TlsError::MalformedKey => "Could not read the private key file."@,
        TlsError::NoPrivateKey => "Could not locate PKCS 8 private keys."@,
    }
}

impl TlsError {
    /// The message shown to the operator.
    pub fn message(&self) -> (r: &'static str)
        ensures
            r@ == tls_error_text(*self),
    {
        match self {
            TlsError::MalformedCertificates => "Could not read the certificate chain.",
            TlsError::MalformedKey => "Could not read the private key file.",
            TlsError::NoPrivateKey => "Could not locate PKCS 8 private keys.",
        }
    }
}

/// The certificate chain, as read, and the private key of a TLS listener.
#[derive(Clone, Debug)]
pub struct TlsMaterial {
    pub cert_chain: Vec<Vec<u8>>,
    pub private_key: Vec<u8>,
}

pub ghost struct TlsMaterialView {
    pub cert_chain: Seq<Seq<u8>>,
    pub private_key: Seq<u8>,
}

impl View for TlsMaterial {
    type V = TlsMaterialView;

    open spec fn view(&self) -> TlsMaterialView {
        TlsMaterialView { cert_chain: der_items(self.cert_chain@), private_key: self.private_key@ }
    }
}

/// The material made of what was read: the whole chain, and the first key,
/// the others being ignored.
pub open spec fn tls_material_of(certs: Option<Seq<Seq<u8>>>, keys: Option<Seq<Seq<u8>>>) -> Result<
    TlsMaterialView,
    TlsError,
> {
    match certs {
        None => Err(TlsError::MalformedCertificates),
        Some(chain) => match keys {
            None => Err(TlsError::MalformedKey),
            Some(ks) => if ks.len() == 0 {
                Err(TlsError::NoPrivateKey)
            } else {
                Ok(TlsMaterialView { cert_chain: chain, private_key: ks[0] })
            },
        },
    }
}

pub open spec fn material_view(r: Result<TlsMaterial, TlsError>) -> Result<TlsMaterialView, TlsError> {
    match r {
        Ok(m) => Ok(m@),
        Err(e) => Err(e),
    }
}

/// Makes the material of what was read from the certificate file and the
/// key file: `None` stands for text that could not be read.
pub fn select_tls_material(certs: Option<Vec<Vec<u8>>>, keys: Option<Vec<Vec<u8>>>) -> (r: Result<
    TlsMaterial,
    TlsError,
>)
    ensures
        material_view(r) == tls_material_of(items_view(certs), items_view(keys)),
{
    let cert_chain = match certs {
        Some(c) => c,
        None => {
            return Err(TlsError::MalformedCertificates);
        },
    };
    let mut keys = match keys {
        Some(k) => k,
        None => {
            return Err(TlsError::MalformedKey);
        },
    };
    if keys.len() == 0 {
        return Err(TlsError::NoPrivateKey);
    }
    let ghost all = keys@;
    let private_key = keys.remove(0);
    assert(der_items(all)[0] == private_key@);
    Ok(TlsMaterial { cert_chain, private_key })
}

/// Reads the material of a TLS listener from the PEM text of its
/// certificate file and of its key file.
pub fn load_tls_material(cert_pem: &[u8], key_pem: &[u8]) -> (r: Result<TlsMaterial, TlsError>)
    ensures
        material_view(r) == tls_material_of(pem_certificates(cert_pem@), pem_pkcs8_keys(key_pem@)),
{
    let certs = read_certificates(cert_pem);
    let keys = read_pkcs8_keys(key_pem);
    select_tls_material(certs, keys)
}

} // verus!
