//! Self-signed identities: private keys that sign bytes and public
//! certificates that verify them, each its own single trust anchor.
use core::cmp::Ordering;
use rustls::internal::msgs::handshake::DigitallySignedStruct;
use rustls::server::AllowAnyAuthenticatedClient;
use rustls::sign::any_ecdsa_type;
use rustls::{Certificate, RootCertStore};
use rustls_pemfile::{certs, pkcs8_private_keys};
use vstd::prelude::*;
use vstd::std_specs::cmp::{PartialEqSpec, PartialOrdSpec};
use vstd::string::StringExecFnsIsAscii;
use vstd::utf8::{encode_utf8, is_ascii_chars};

use crate::messages::Signature;

verus! {

/// Code of ECDSA over P-256 with SHA-256, the scheme of freshly generated keys.
pub const DEFAULT_SCHEME_CODE: u16 = 0x0403;

/// A signature scheme, by its TLS code point.
#[derive(Clone, Copy, Debug, PartialEq, Eq, Structural, Hash)]
pub struct SignatureScheme {
    pub code: u16,
}

pub open spec fn default_scheme() -> SignatureScheme {
    SignatureScheme { code: DEFAULT_SCHEME_CODE }
}

/// Why identity material could not be turned into an identity.
#[derive(Clone, Copy, Debug, PartialEq, Eq, Structural, Hash)]
pub enum ConfigError {
    /// The certificate text could not be read as PEM.
    CertificateUnreadable,
    /// The certificate text holds no certificate.
    NoCertificate,
    /// The certificate cannot serve as a trust anchor.
    UntrustedCertificate,
    /// No signature scheme can verify under the certificate.
    NoVerifyScheme,
    /// The private key text could not be read as PEM.
    PrivateKeyUnreadable,
    /// The private key text holds no PKCS#8 key.
    NoPrivateKey,
    /// The key signs under none of the schemes offered.
    NoSupportedScheme,
    /// The key could not be loaded as an ECDSA signing key.
    KeyUnusable,
    /// A fresh certificate could not be made (or a host name is not ASCII).
    KeyGeneration,
}

#[verifier::external_type_specification]
#[verifier::external_body]
pub struct ExRootCertStore(RootCertStore);

/// Relies on rustls's derived `Clone` for `RootCertStore`: a copy of the store.
pub assume_specification[ <RootCertStore as Clone>::clone ](roots: &RootCertStore) -> RootCertStore;

/// The DER certificates in a PEM text, or `None` where it cannot be read.
pub uninterp spec fn pem_certs_of(pem: Seq<char>) -> Option<Seq<Seq<u8>>>;

/// The DER PKCS#8 keys in a PEM text, or `None` where it cannot be read.
pub uninterp spec fn pem_pkcs8_keys_of(pem: Seq<char>) -> Option<Seq<Seq<u8>>>;

/// Whether a DER certificate is accepted as a trust anchor.
pub uninterp spec fn is_trust_anchor(cert: Seq<u8>) -> bool;

/// The one scheme that an ECDSA key signs under, once loaded (its curve's).
pub uninterp spec fn ecdsa_key_scheme(key: Seq<u8>) -> u16;

/// Whether `sig` is a valid signature of `msg` by the PKCS#8 key under the scheme.
pub uninterp spec fn ecdsa_signature_valid(key: Seq<u8>, scheme: u16, msg: Seq<u8>, sig: Seq<u8>) -> bool;

/// Whether `sig` is a valid signature of `msg` under the certificate's key and the scheme.
pub uninterp spec fn tls13_signature_valid(
    cert: Seq<u8>,
    scheme: u16,
    msg: Seq<u8>,
    sig: Seq<u8>,
) -> bool;

/// The schemes that a certificate verifier handles, most preferred first.
pub open spec fn verification_scheme_codes() -> Seq<u16> {
    seq![0x0503u16, 0x0403, 0x0807, 0x0806, 0x0805, 0x0804, 0x0601, 0x0501, 0x0401]
}

/// Relies on rustls_pemfile's `certs`: every certificate of the text, in order.
#[verifier::external_body]
fn pem_certs(pem: &str) -> (r: Option<Vec<Vec<u8>>>)
    ensures
        r.is_some() == pem_certs_of(pem@).is_some(),
        r is Some ==> r->0.deep_view() == pem_certs_of(pem@)->0,
{
    certs(&mut pem.as_bytes()).ok()
}

/// Relies on rustls_pemfile's `pkcs8_private_keys`: every PKCS#8 key of the text, in order.
#[verifier::external_body]
fn pem_pkcs8_keys(pem: &str) -> (r: Option<Vec<Vec<u8>>>)
    ensures
        r.is_some() == pem_pkcs8_keys_of(pem@).is_some(),
        r is Some ==> r->0.deep_view() == pem_pkcs8_keys_of(pem@)->0,
{
    pkcs8_private_keys(&mut pem.as_bytes()).ok()
}

/// Relies on rustls's `RootCertStore::empty` and `RootCertStore::add`: a store
/// whose one root is the certificate, where it is accepted as one.
#[verifier::external_body]
fn root_cert_store(cert: &Vec<u8>) -> (r: Option<RootCertStore>)
    ensures
        r.is_some() == is_trust_anchor(cert@),
{
    let mut roots = RootCertStore::empty();
    match roots.add(&Certificate(cert.clone())) {
        Ok(()) => Some(roots),
        Err(_) => None,
    }
}

/// Relies on rustls's `AllowAnyAuthenticatedClient`, whose
/// `supported_verify_schemes` is webpki's fixed list of schemes.
#[verifier::external_body]
fn supported_verify_schemes(roots: RootCertStore) -> (r: Vec<u16>)
    ensures
        r@ == verification_scheme_codes(),
{
    AllowAnyAuthenticatedClient::new(roots).supported_verify_schemes().iter().map(
        |s| s.get_u16(),
    ).collect()
}

/// Relies on rustls's `AllowAnyAuthenticatedClient::verify_tls13_signature`,
/// which checks the signature with the certificate's key alone.
#[verifier::external_body]
fn verify_tls13_signature(
    roots: &RootCertStore,
    cert: &Vec<u8>,
    scheme: u16,
    message: &[u8],
    signature: Vec<u8>,
) -> (r: bool)
    ensures
        r == tls13_signature_valid(cert@, scheme, message@, signature@),
{
    AllowAnyAuthenticatedClient::new(roots.clone()).verify_tls13_signature(
        message,
        &Certificate(cert.clone()),
        &DigitallySignedStruct::new(rustls::SignatureScheme::from(scheme), signature),
    ).is_ok()
}

/// Relies on rustls's `any_ecdsa_type` and `SigningKey::choose_scheme`.
/// Loading the key draws from the system generator and may fail (`None`);
/// a loaded ECDSA key signs under its one scheme, and only where that scheme
/// is offered (`Some(None)` where it is not).
#[verifier::external_body]
fn choose_ecdsa_scheme(key: &Vec<u8>, offered: &Vec<u16>) -> (r: Option<Option<u16>>)
    ensures
        r is Some ==> r->0 == (if offered@.contains(ecdsa_key_scheme(key@)) {
            Some(ecdsa_key_scheme(key@))
        } else {
            None
        }),
{
    let offered: Vec<rustls::SignatureScheme> = offered.iter().map(
        |c| rustls::SignatureScheme::from(*c),
    ).collect();
    let signing_key = any_ecdsa_type(&rustls::PrivateKey(key.clone())).ok()?;
    Some(signing_key.choose_scheme(&offered).map(|s| s.scheme().get_u16()))
}

/// Relies on rustls's ECDSA `Signer::sign`, which draws a fresh nonce: a
/// valid signature of the message by the key under the scheme, or `None`
/// where loading the key or signing fails.
#[verifier::external_body]
fn ecdsa_sign(key: &Vec<u8>, scheme: u16, message: &[u8]) -> (r: Option<Vec<u8>>)
    ensures
        r is Some ==> ecdsa_signature_valid(key@, scheme, message@, r->0@),
{
    let signing_key = any_ecdsa_type(&rustls::PrivateKey(key.clone())).ok()?;
    let signer = signing_key.choose_scheme(&[rustls::SignatureScheme::from(scheme)])?;
    signer.sign(message).ok()
}

/// Relies on rcgen's `generate_simple_self_signed`, `Certificate::serialize_pem`
/// and `Certificate::serialize_private_key_pem`: a fresh self-signed certificate
/// for the names and its new key, as PEM texts. rcgen writes each name as an
/// IA5 string and panics on one that is not ASCII. The certificate carries the
/// public half of that key, so what the key signs verifies under it.
#[verifier::external_body]
fn generate_self_signed_pems(hostnames: &[String]) -> (r: Option<(String, String)>)
    requires
        forall|i: int| 0 <= i < hostnames@.len() ==> is_ascii_chars(#[trigger] hostnames@[i]@),
    ensures
        r matches Some(pems) ==> pems_match(pems.0@, pems.1@),
{
    let cert = rcgen::generate_simple_self_signed(hostnames).ok()?;
    let public_pem = cert.serialize_pem().ok()?;
    Some((public_pem, cert.serialize_private_key_pem()))
}

/// The certificate of a PEM text: the last one it holds.
pub open spec fn spec_certificate(pem: Seq<char>) -> Result<Seq<u8>, ConfigError> {
    match pem_certs_of(pem) {
        None => Err(ConfigError::CertificateUnreadable),
        Some(cs) => if cs.len() == 0 {
            Err(ConfigError::NoCertificate)
        } else {
            Ok(cs.last())
        },
    }
}

/// The certificate of a PEM text, where it can also serve as its own trust anchor.
pub open spec fn spec_trusted_certificate(pem: Seq<char>) -> Result<Seq<u8>, ConfigError> {
    match spec_certificate(pem) {
        Err(e) => Err(e),
        Ok(c) => if is_trust_anchor(c) {
            Ok(c)
        } else {
            Err(ConfigError::UntrustedCertificate)
        },
    }
}

/// The scheme picked from those a verifier handles: the default one where
/// present, else the last one, and none from an empty list.
pub open spec fn negotiate(schemes: Seq<u16>) -> Option<u16> {
    if schemes.contains(DEFAULT_SCHEME_CODE) {
        Some(DEFAULT_SCHEME_CODE)
    } else if schemes.len() == 0 {
        None
    } else {
        Some(schemes.last())
    }
}

/// The key of a PEM text: its last PKCS#8 key.
pub open spec fn spec_private_key(pem: Seq<char>) -> Result<Seq<u8>, ConfigError> {
    match pem_pkcs8_keys_of(pem) {
        None => Err(ConfigError::PrivateKeyUnreadable),
        Some(ks) => if ks.len() == 0 {
            Err(ConfigError::NoPrivateKey)
        } else {
            Ok(ks.last())
        },
    }
}

/// A certificate text and a key text that make a pair under the default
/// scheme: each holds its item, and what the key signs verifies under the
/// certificate.
pub open spec fn pems_match(cert_pem: Seq<char>, key_pem: Seq<char>) -> bool {
    &&& spec_certificate(cert_pem) is Ok
    &&& spec_private_key(key_pem) is Ok
    &&& forall|m: Seq<u8>, s: Seq<u8>|
        #[trigger] ecdsa_signature_valid(spec_private_key(key_pem)->Ok_0, DEFAULT_SCHEME_CODE, m, s)
            ==> tls13_signature_valid(spec_certificate(cert_pem)->Ok_0, DEFAULT_SCHEME_CODE, m, s)
}

/// `code` is offered, and every offered scheme that the key supports is
/// `code`: so it is the first of them. An ECDSA key supports its one scheme.
pub open spec fn is_first_supported(key: Seq<u8>, offered: Seq<u16>, code: u16) -> bool {
    &&& offered.contains(code)
    &&& forall|j: int|
        0 <= j < offered.len() && offered[j] == ecdsa_key_scheme(key) ==> offered[j] == code
}

/// What a private-key constructor returns for a PEM text and the offered
/// scheme codes: the parse errors as they are; for a readable key, either an
/// identity signing with the scheme the key picks, `NoSupportedScheme` where it
/// picks none, or `KeyUnusable` where the key could not be loaded.
pub open spec fn private_key_outcome(
    r: Result<PrivateKey, ConfigError>,
    pem: Seq<char>,
    offered: Seq<u16>,
) -> bool {
    match spec_private_key(pem) {
        Err(e) => r == Err::<PrivateKey, ConfigError>(e),
        Ok(k) => match r {
            Ok(sk) => {
                &&& sk.pem() == pem
                &&& sk.key_der() == k
                &&& sk.spec_scheme().code == ecdsa_key_scheme(k)
                &&& is_first_supported(k, offered, sk.spec_scheme().code)
            },
            Err(e) => (e == ConfigError::NoSupportedScheme && !offered.contains(ecdsa_key_scheme(k)))
                || e == ConfigError::KeyUnusable,
        },
    }
}

pub open spec fn scheme_codes(schemes: Seq<SignatureScheme>) -> Seq<u16> {
    schemes.map_values(|s: SignatureScheme| s.code)
}

/// The certificate of a PEM text: its last one.
fn certificate(pem: &String) -> (r: Result<Vec<u8>, ConfigError>)
    ensures
        r is Ok <==> spec_certificate(pem@) is Ok,
        r is Ok ==> r->Ok_0@ == spec_certificate(pem@)->Ok_0,
        r is Err ==> spec_certificate(pem@) == Err::<Seq<u8>, ConfigError>(r->Err_0),
{
    match pem_certs(pem.as_str()) {
        None => Err(ConfigError::CertificateUnreadable),
        Some(mut cs) => {
            proof {
                if cs.len() > 0 {
                    assert(cs@.last()@ == cs.deep_view().last());
                }
            }
            match cs.pop() {
                None => Err(ConfigError::NoCertificate),
                Some(c) => Ok(c),
            }
        },
    }
}

/// Pick a scheme from a verifier's list: the default one where present, else the last one.
fn negotiate_scheme(mut schemes: Vec<u16>) -> (r: Option<u16>)
    ensures
        r == negotiate(schemes@),
{
    let mut i: usize = 0;
    while i < schemes.len()
        invariant
            0 <= i <= schemes@.len(),
            forall|j: int| 0 <= j < i ==> schemes@[j] != DEFAULT_SCHEME_CODE,
        decreases schemes@.len() - i,
    {
        if schemes[i] == DEFAULT_SCHEME_CODE {
            return Some(DEFAULT_SCHEME_CODE);
        }
        i = i + 1;
    }
    proof {
        if schemes@.contains(DEFAULT_SCHEME_CODE) {
            let j = choose|j: int| 0 <= j < schemes@.len() && schemes@[j] == DEFAULT_SCHEME_CODE;
            assert(schemes@[j] != DEFAULT_SCHEME_CODE);
        }
    }
    schemes.pop()
}

/// A public identity: a PEM certificate, the scheme its signatures use, and a
/// trust store whose one root is that certificate.
#[derive(Clone)]
pub struct PublicKey {
    string: String,
    certificate: Vec<u8>,
    scheme: SignatureScheme,
    roots: RootCertStore,
}

impl PublicKey {
    /// The PEM text of the identity.
    pub closed spec fn pem(&self) -> Seq<char> {
        self.string@
    }

    /// The DER certificate that the PEM text holds.
    pub closed spec fn cert(&self) -> Seq<u8> {
        self.certificate@
    }

    /// The scheme that signatures under this identity use.
    pub closed spec fn spec_scheme(&self) -> SignatureScheme {
        self.scheme
    }

    /// A public identity from a PEM certificate and a given scheme.
    pub fn new(pem_string: String, scheme: SignatureScheme) -> (r: Result<PublicKey, ConfigError>)
        ensures
            r is Ok <==> spec_trusted_certificate(pem_string@) is Ok,
            r is Ok ==> r->Ok_0.pem() == pem_string@ && r->Ok_0.cert() == spec_trusted_certificate(
                pem_string@,
            )->Ok_0 && r->Ok_0.spec_scheme() == scheme,
            r is Err ==> spec_trusted_certificate(pem_string@) == Err::<Seq<u8>, ConfigError>(
                r->Err_0,
            ),
    {
        let certificate = match certificate(&pem_string) {
            Ok(c) => c,
            Err(e) => {
                return Err(e);
            },
        };
        match root_cert_store(&certificate) {
            None => Err(ConfigError::UntrustedCertificate),
            Some(roots) => Ok(PublicKey { string: pem_string, certificate, scheme, roots }),
        }
    }

    /// A public identity from a PEM certificate, with the scheme negotiated
    /// from those a verifier trusting it handles: the default one.
    pub fn new_default_scheme(pem_string: String) -> (r: Result<PublicKey, ConfigError>)
        ensures
            r is Ok <==> spec_trusted_certificate(pem_string@) is Ok,
            r is Ok ==> r->Ok_0.pem() == pem_string@ && r->Ok_0.cert() == spec_trusted_certificate(
                pem_string@,
            )->Ok_0 && r->Ok_0.spec_scheme() == default_scheme(),
            r is Err ==> spec_trusted_certificate(pem_string@) == Err::<Seq<u8>, ConfigError>(
                r->Err_0,
            ),
    {
        let certificate = match certificate(&pem_string) {
            Ok(c) => c,
            Err(e) => {
                return Err(e);
            },
        };
        let roots = match root_cert_store(&certificate) {
            None => {
                return Err(ConfigError::UntrustedCertificate);
            },
            Some(roots) => roots,
        };
        let schemes = supported_verify_schemes(roots.clone());
        proof {
            assert(verification_scheme_codes()[1] == DEFAULT_SCHEME_CODE);
        }
        match negotiate_scheme(schemes) {
            None => Err(ConfigError::NoVerifyScheme),
            Some(code) => Ok(
                PublicKey { string: pem_string, certificate, scheme: SignatureScheme { code }, roots },
            ),
        }
    }

    /// Whether `signature` is a valid signature of exactly `message` by the
    /// private key of this identity, under its scheme.
    pub fn verify_bytes(&self, message: &[u8], signature: Vec<u8>) -> (r: bool)
        ensures
            r == tls13_signature_valid(self.cert(), self.spec_scheme().code, message@, signature@),
    {
        verify_tls13_signature(&self.roots, &self.certificate, self.scheme.code, message, signature)
    }

    /// Whether `signature` is valid for an encoded message under this identity.
    pub fn verify_signature(&self, encoded: &[u8], signature: Signature) -> (r: bool)
        ensures
            r == tls13_signature_valid(
                self.cert(),
                self.spec_scheme().code,
                encoded@,
                signature.bytes@,
            ),
    {
        self.verify_bytes(encoded, signature.bytes)
    }

    /// The PEM text of the identity.
    pub fn to_pem(&self) -> (r: String)
        ensures
            r@ == self.pem(),
    {
        self.string.clone()
    }

    /// The scheme that signatures under this identity use.
    pub fn scheme(&self) -> (r: SignatureScheme)
        ensures
            r == self.spec_scheme(),
    {
        self.scheme
    }
}

/// A private identity: a PEM PKCS#8 key and the scheme it signs with.
pub struct PrivateKey {
    string: String,
    key: Vec<u8>,
    scheme: SignatureScheme,
}

impl PrivateKey {
    /// The PEM text of the key.
    pub closed spec fn pem(&self) -> Seq<char> {
        self.string@
    }

    /// The DER PKCS#8 key.
    pub closed spec fn key_der(&self) -> Seq<u8> {
        self.key@
    }

    /// The scheme that this key signs with.
    pub closed spec fn spec_scheme(&self) -> SignatureScheme {
        self.scheme
    }

    /// A private identity from a PEM key, signing with the scheme it picks from `schemes`.
    pub fn new(pem_string: String, schemes: &[SignatureScheme]) -> (r: Result<PrivateKey, ConfigError>)
        ensures
            private_key_outcome(r, pem_string@, scheme_codes(schemes@)),
    {
        let ghost pem = pem_string@;
        let mut offered: Vec<u16> = Vec::new();
        let mut i: usize = 0;
        while i < schemes.len()
            invariant
                0 <= i <= schemes@.len(),
                offered@ == scheme_codes(schemes@.subrange(0, i as int)),
            decreases schemes@.len() - i,
        {
            offered.push(schemes[i].code);
            proof {
                assert(schemes@.subrange(0, i + 1) == schemes@.subrange(0, i as int).push(
                    schemes@[i as int],
                ));
            }
            i = i + 1;
        }
        proof {
            assert(schemes@.subrange(0, schemes@.len() as int) == schemes@);
        }
        let mut keys = match pem_pkcs8_keys(pem_string.as_str()) {
            None => {
                return Err(ConfigError::PrivateKeyUnreadable);
            },
            Some(ks) => ks,
        };
        proof {
            if keys.len() > 0 {
                assert(keys@.last()@ == keys.deep_view().last());
            }
        }
        let key = match keys.pop() {
            None => {
                return Err(ConfigError::NoPrivateKey);
            },
            Some(k) => k,
        };
        match choose_ecdsa_scheme(&key, &offered) {
            None => Err(ConfigError::KeyUnusable),
            Some(None) => Err(ConfigError::NoSupportedScheme),
            Some(Some(code)) => Ok(
                PrivateKey { string: pem_string, key, scheme: SignatureScheme { code } },
            ),
        }
    }

    /// A private identity from a PEM key that must sign with `scheme`.
    pub fn new_specific_scheme(pem_string: String, scheme: SignatureScheme) -> (r: Result<
        PrivateKey,
        ConfigError,
    >)
        ensures
            private_key_outcome(r, pem_string@, seq![scheme.code]),
            r is Ok ==> r->Ok_0.spec_scheme() == scheme,
    {
        let schemes = [scheme];
        proof {
            assert(scheme_codes(schemes@) =~= seq![scheme.code]);
        }
        let r = PrivateKey::new(pem_string, &schemes);
        proof {
            if r is Ok {
                let k = choose|k: int|
                    0 <= k < scheme_codes(schemes@).len() && scheme_codes(schemes@)[k]
                        == r->Ok_0.spec_scheme().code;
                assert(k == 0);
            }
        }
        r
    }

    /// A private identity from a PEM key that must sign with the default scheme.
    pub fn new_default_scheme(pem_string: String) -> (r: Result<PrivateKey, ConfigError>)
        ensures
            private_key_outcome(r, pem_string@, seq![DEFAULT_SCHEME_CODE]),
            r is Ok ==> r->Ok_0.spec_scheme() == default_scheme(),
    {
        PrivateKey::new_specific_scheme(pem_string, SignatureScheme { code: DEFAULT_SCHEME_CODE })
    }

    /// The scheme that this key signs with.
    pub fn scheme(&self) -> (r: SignatureScheme)
        ensures
            r == self.spec_scheme(),
    {
        self.scheme
    }

    /// The PEM text of the key.
    pub fn to_pem(&self) -> (r: String)
        ensures
            r@ == self.pem(),
    {
        self.string.clone()
    }

    /// Sign exactly `message` with this key under its scheme. ECDSA draws a
    /// fresh nonce, so two signatures of one message may differ.
    pub fn sign_bytes(&self, message: &[u8]) -> (r: Option<Vec<u8>>)
        ensures
            r is Some ==> ecdsa_signature_valid(
                self.key_der(),
                self.spec_scheme().code,
                message@,
                r->0@,
            ),
    {
        ecdsa_sign(&self.key, self.scheme.code, message)
    }

    /// Sign an encoded message with this key.
    pub fn sign_message(&self, encoded: &[u8]) -> (r: Option<Signature>)
        ensures
            r is Some ==> ecdsa_signature_valid(
                self.key_der(),
                self.spec_scheme().code,
                encoded@,
                r->0.bytes@,
            ),
    {
        match self.sign_bytes(encoded) {
            Some(bytes) => Some(Signature { bytes }),
            None => None,
        }
    }
}

/// A public and a private identity that make a pair: both sign under the
/// default scheme, each holds what its PEM text holds, and what the private
/// one signs verifies under the public one.
pub open spec fn is_matched_pair(public: PublicKey, private: PrivateKey) -> bool {
    &&& pems_match(public.pem(), private.pem())
    &&& spec_trusted_certificate(public.pem()) is Ok
    &&& public.cert() == spec_trusted_certificate(public.pem())->Ok_0
    &&& private.key_der() == spec_private_key(private.pem())->Ok_0
    &&& public.spec_scheme() == default_scheme()
    &&& private.spec_scheme() == default_scheme()
}

/// A matched pair from stored PEM texts: the public half negotiates its scheme,
/// and the private half must sign with that same scheme.
pub fn keys_from_strings(public_key_string: String, private_key_string: String) -> (r: Result<
    (PublicKey, PrivateKey),
    ConfigError,
>)
    ensures
        spec_trusted_certificate(public_key_string@) is Err ==> r == Err::<
            (PublicKey, PrivateKey),
            ConfigError,
        >(spec_trusted_certificate(public_key_string@)->Err_0),
        spec_trusted_certificate(public_key_string@) is Ok && r is Err ==> private_key_outcome(
            Err(r->Err_0),
            private_key_string@,
            seq![DEFAULT_SCHEME_CODE],
        ),
        r is Ok ==> {
            &&& spec_trusted_certificate(public_key_string@) is Ok
            &&& r->Ok_0.0.pem() == public_key_string@
            &&& r->Ok_0.0.cert() == spec_trusted_certificate(public_key_string@)->Ok_0
            &&& r->Ok_0.0.spec_scheme() == default_scheme()
            &&& private_key_outcome(Ok(r->Ok_0.1), private_key_string@, seq![DEFAULT_SCHEME_CODE])
            &&& r->Ok_0.1.spec_scheme() == default_scheme()
        },
        r is Ok && pems_match(public_key_string@, private_key_string@) ==> is_matched_pair(
            r->Ok_0.0,
            r->Ok_0.1,
        ),
{
    let public_key = match PublicKey::new_default_scheme(public_key_string) {
        Ok(k) => k,
        Err(e) => {
            return Err(e);
        },
    };
    match PrivateKey::new_specific_scheme(private_key_string, public_key.scheme()) {
        Ok(private_key) => Ok((public_key, private_key)),
        Err(e) => Err(e),
    }
}

/// A fresh matched pair: a new self-signed certificate for the host names and
/// its key. Host names must be ASCII, as a certificate writes them. Generation
/// and loading the key draw random numbers and may fail.
pub fn new_key_pair(hostnames: &[String]) -> (r: Result<(PublicKey, PrivateKey), ConfigError>)
    ensures
        r is Ok ==> is_matched_pair(r->Ok_0.0, r->Ok_0.1),
        (exists|i: int| 0 <= i < hostnames@.len() && !is_ascii_chars(#[trigger] hostnames@[i]@))
            ==> r == Err::<(PublicKey, PrivateKey), ConfigError>(ConfigError::KeyGeneration),
        r is Err ==> r->Err_0 == ConfigError::KeyGeneration || r->Err_0 == ConfigError::KeyUnusable
            || r->Err_0 == ConfigError::UntrustedCertificate || r->Err_0
            == ConfigError::NoSupportedScheme,
{
    let mut i: usize = 0;
    while i < hostnames.len()
        invariant
            0 <= i <= hostnames@.len(),
            forall|j: int| 0 <= j < i ==> is_ascii_chars(#[trigger] hostnames@[j]@),
        decreases hostnames@.len() - i,
    {
        if !hostnames[i].is_ascii() {
            return Err(ConfigError::KeyGeneration);
        }
        i = i + 1;
    }
    let (public_pem, private_pem) = match generate_self_signed_pems(hostnames) {
        Some(pems) => pems,
        None => {
            return Err(ConfigError::KeyGeneration);
        },
    };
    keys_from_strings(public_pem, private_pem)
}

/// What the private identity of a matched pair signs verifies under the
/// public identity, for every message.
pub proof fn lemma_matched_pair_signatures_verify(
    public: PublicKey,
    private: PrivateKey,
    m: Seq<u8>,
    s: Seq<u8>,
)
    requires
        is_matched_pair(public, private),
        ecdsa_signature_valid(private.key_der(), private.spec_scheme().code, m, s),
    ensures
        tls13_signature_valid(public.cert(), public.spec_scheme().code, m, s),
{
}

/// A matched pair read back from its own PEM texts is a matched pair, equal
/// to the first one on the public side.
pub proof fn lemma_reloaded_pair_matches(
    public: PublicKey,
    private: PrivateKey,
    public2: PublicKey,
    private2: PrivateKey,
)
    requires
        is_matched_pair(public, private),
        public2.pem() == public.pem(),
        public2.cert() == spec_trusted_certificate(public.pem())->Ok_0,
        public2.spec_scheme() == default_scheme(),
        private2.pem() == private.pem(),
        private2.key_der() == spec_private_key(private.pem())->Ok_0,
        private2.spec_scheme() == default_scheme(),
    ensures
        is_matched_pair(public2, private2),
        public2.eq_spec(&public),
        private2.key_der() == private.key_der(),
{
}

/// Byte strings ordered lexicographically, a proper prefix first.
pub open spec fn bytes_cmp(a: Seq<u8>, b: Seq<u8>) -> Ordering
    decreases a.len(),
{
    if a.len() == 0 {
        if b.len() == 0 {
            Ordering::Equal
        } else {
            Ordering::Less
        }
    } else if b.len() == 0 {
        Ordering::Greater
    } else if a[0] < b[0] {
        Ordering::Less
    } else if a[0] > b[0] {
        Ordering::Greater
    } else {
        bytes_cmp(a.drop_first(), b.drop_first())
    }
}

/// PEM texts ordered as strings are: by their UTF-8 bytes.
pub open spec fn pem_cmp(a: Seq<char>, b: Seq<char>) -> Ordering {
    bytes_cmp(encode_utf8(a), encode_utf8(b))
}

proof fn lemma_bytes_cmp_reflexive(a: Seq<u8>)
    ensures
        bytes_cmp(a, a) is Equal,
    decreases a.len(),
{
    if a.len() > 0 {
        lemma_bytes_cmp_reflexive(a.drop_first());
    }
}

fn compare_bytes(a: &[u8], b: &[u8]) -> (r: Ordering)
    ensures
        r == bytes_cmp(a@, b@),
{
    let mut i: usize = 0;
    assert(a@.skip(0) =~= a@);
    assert(b@.skip(0) =~= b@);
    while i < a.len() && i < b.len()
        invariant
            0 <= i <= a@.len(),
            i <= b@.len(),
            bytes_cmp(a@, b@) == bytes_cmp(a@.skip(i as int), b@.skip(i as int)),
        decreases a@.len() - i,
    {
        assert(a@.skip(i as int).drop_first() =~= a@.skip(i + 1));
        assert(b@.skip(i as int).drop_first() =~= b@.skip(i + 1));
        if a[i] < b[i] {
            return Ordering::Less;
        } else if a[i] > b[i] {
            return Ordering::Greater;
        }
        i = i + 1;
    }
    if i < a.len() {
        Ordering::Greater
    } else if i < b.len() {
        Ordering::Less
    } else {
        Ordering::Equal
    }
}

impl PublicKey {
    /// Order public identities by their PEM text alone.
    pub fn compare(&self, other: &PublicKey) -> (r: Ordering)
        ensures
            r == pem_cmp(self.pem(), other.pem()),
    {
        compare_bytes(self.string.as_str().as_bytes(), other.string.as_str().as_bytes())
    }
}

impl PartialEq for PublicKey {
    fn eq(&self, other: &PublicKey) -> (r: bool) {
        self.string == other.string
    }
}

impl vstd::std_specs::cmp::PartialEqSpecImpl for PublicKey {
    open spec fn obeys_eq_spec() -> bool {
        true
    }

    open spec fn eq_spec(&self, other: &PublicKey) -> bool {
        self.pem() == other.pem()
    }
}

impl Eq for PublicKey {

}

/// Relies on std's `Hash` for `String`: it feeds the text to the hasher.
pub assume_specification<H: core::hash::Hasher>[ <String as core::hash::Hash>::hash::<H> ](
    s: &String,
    state: &mut H,
);

impl core::hash::Hash for PublicKey {
    /// Hashes the PEM text alone, as equality reads it alone.
    fn hash<H: core::hash::Hasher>(&self, state: &mut H) {
        self.string.hash(state);
    }
}

impl PartialOrd for PublicKey {
    fn partial_cmp(&self, other: &PublicKey) -> (r: Option<Ordering>) {
        Some(self.compare(other))
    }
}

impl vstd::std_specs::cmp::PartialOrdSpecImpl for PublicKey {
    open spec fn obeys_partial_cmp_spec() -> bool {
        true
    }

    open spec fn partial_cmp_spec(&self, other: &PublicKey) -> Option<Ordering> {
        Some(pem_cmp(self.pem(), other.pem()))
    }
}

/// Public identities with the same PEM text are equal and compare as equal,
/// whatever else they hold.
pub proof fn lemma_same_pem_same_identity(a: PublicKey, b: PublicKey)
    requires
        a.pem() == b.pem(),
    ensures
        a.eq_spec(&b),
        pem_cmp(a.pem(), b.pem()) is Equal,
        a.partial_cmp_spec(&b) == Some(Ordering::Equal),
{
    lemma_bytes_cmp_reflexive(encode_utf8(a.pem()));
}

/// Two identities read from the same PEM certificate are equal, compare as
/// equal, and share certificate and scheme.
pub proof fn lemma_reconstructed_identities_agree(pem: Seq<char>, a: PublicKey, b: PublicKey)
    requires
        a.pem() == pem,
        b.pem() == pem,
        a.spec_scheme() == default_scheme(),
        b.spec_scheme() == default_scheme(),
        a.cert() == spec_trusted_certificate(pem)->Ok_0,
        b.cert() == spec_trusted_certificate(pem)->Ok_0,
    ensures
        a.eq_spec(&b),
        a.partial_cmp_spec(&b) == Some(Ordering::Equal),
        a.cert() == b.cert(),
        a.spec_scheme() == b.spec_scheme(),
        forall|m: Seq<u8>, s: Seq<u8>|
            tls13_signature_valid(a.cert(), a.spec_scheme().code, m, s) == tls13_signature_valid(
                b.cert(),
                b.spec_scheme().code,
                m,
                s,
            ),
{
    lemma_same_pem_same_identity(a, b);
}

} // verus!
