//! The TLS material of an HTTPS listener: the certificate chain and the
//! private key found in two PEM texts, and the server configuration that
//! rustls builds from them.

use rustls::ServerConfig;
use rustls::TLSError;
use vstd::prelude::*;
use vstd::string::StringExecFns;

verus! {

/// `rustls::ServerConfig`, opaque here: it is built and handed on.
#[verifier::external_type_specification]
#[verifier::external_body]
pub struct ExServerConfig(ServerConfig);

/// `rustls::TLSError`, opaque here: only its presence is looked at.
#[verifier::external_type_specification]
#[verifier::external_body]
pub struct ExTLSError(TLSError);

/// The byte strings that a vector of byte vectors holds.
pub open spec fn byte_strings(items: Seq<Vec<u8>>) -> Seq<Seq<u8>> {
    Seq::new(items.len(), |i: int| items[i]@)
}

/// What `rustls::internal::pemfile::certs` finds in a PEM text: the DER
/// contents of its certificate sections in order, or `None` where it gives up.
pub uninterp spec fn pem_certificates(pem: Seq<u8>) -> Option<Seq<Seq<u8>>>;

/// What `rustls::internal::pemfile::pkcs8_private_keys` finds in a PEM text.
pub uninterp spec fn pem_pkcs8_keys(pem: Seq<u8>) -> Option<Seq<Seq<u8>>>;

/// What `rustls::internal::pemfile::rsa_private_keys` finds in a PEM text.
pub uninterp spec fn pem_rsa_keys(pem: Seq<u8>) -> Option<Seq<Seq<u8>>>;

/// The certificate chain and the private key that a server configuration
/// answers handshakes with, as they were handed to
/// `rustls::ServerConfig::set_single_cert`, or `None` where none was set.
pub uninterp spec fn served_identity(config: ServerConfig) -> Option<(Seq<Seq<u8>>, Seq<u8>)>;

/// The ALPN protocol names that a server configuration holds, most preferred
/// first.
pub uninterp spec fn alpn_protocols(config: ServerConfig) -> Seq<Seq<u8>>;

/// Calls `rustls::internal::pemfile::certs` on a PEM text held in memory and
/// hands out the DER bytes of each certificate. Trusted: the result is what
/// `pem_certificates` names.
#[verifier::external_body]
fn certs(pem: &[u8]) -> (found: Result<Vec<Vec<u8>>, ()>)
    ensures
        found matches Ok(items) ==> pem_certificates(pem@) == Some(byte_strings(items@)),
        found is Err ==> pem_certificates(pem@) is None,
{
    let mut rd = pem;
    let found = rustls::internal::pemfile::certs(&mut rd)?;
    Ok(found.into_iter().map(|cert| cert.0).collect())
}

/// Calls `rustls::internal::pemfile::pkcs8_private_keys` on a PEM text held in
/// memory and hands out the DER bytes of each key. Trusted: the result is
/// what `pem_pkcs8_keys` names.
#[verifier::external_body]
fn pkcs8_private_keys(pem: &[u8]) -> (found: Result<Vec<Vec<u8>>, ()>)
    ensures
        found matches Ok(items) ==> pem_pkcs8_keys(pem@) == Some(byte_strings(items@)),
        found is Err ==> pem_pkcs8_keys(pem@) is None,
{
    let mut rd = pem;
    let found = rustls::internal::pemfile::pkcs8_private_keys(&mut rd)?;
    Ok(found.into_iter().map(|key| key.0).collect())
}

/// Calls `rustls::internal::pemfile::rsa_private_keys` on a PEM text held in
/// memory and hands out the DER bytes of each key. Trusted: the result is
/// what `pem_rsa_keys` names.
#[verifier::external_body]
fn rsa_private_keys(pem: &[u8]) -> (found: Result<Vec<Vec<u8>>, ()>)
    ensures
        found matches Ok(items) ==> pem_rsa_keys(pem@) == Some(byte_strings(items@)),
        found is Err ==> pem_rsa_keys(pem@) is None,
{
    let mut rd = pem;
    let found = rustls::internal::pemfile::rsa_private_keys(&mut rd)?;
    Ok(found.into_iter().map(|key| key.0).collect())
}

/// Calls `rustls::ServerConfig::new` with `rustls::NoClientAuth::new()`.
/// Trusted: the new configuration holds no ALPN protocol and no certificate.
#[verifier::external_body]
fn new_server_config() -> (config: ServerConfig)
    ensures
        alpn_protocols(config) == Seq::<Seq<u8>>::empty(),
        served_identity(config) is None,
{
    ServerConfig::new(rustls::NoClientAuth::new())
}

/// Calls `rustls::ServerConfig::set_single_cert`. Trusted: where it succeeds
/// the configuration serves with this chain and this key, where it fails the
/// configuration serves with what it served with before, and either way the
/// ALPN protocols are as they were. Whether it succeeds is not said: for some
/// kinds of key rustls asks the system for random bytes first.
#[verifier::external_body]
fn set_single_cert(config: &mut ServerConfig, chain: &Vec<Vec<u8>>, key: &Vec<u8>) -> (done: Result<(), TLSError>)
    ensures
        alpn_protocols(*final(config)) == alpn_protocols(*old(config)),
        done is Ok ==> served_identity(*final(config)) == Some((byte_strings(chain@), key@)),
        done is Err ==> served_identity(*final(config)) == served_identity(*old(config)),
{
    let chain = chain.iter().map(|der| rustls::Certificate(der.clone())).collect();
    config.set_single_cert(chain, rustls::PrivateKey(key.clone()))
}

/// Calls `rustls::ServerConfig::set_protocols`. Trusted: afterwards the
/// configuration holds exactly the given names, in the given order, and
/// serves with the chain and key it served with before.
#[verifier::external_body]
fn set_protocols(config: &mut ServerConfig, protocols: &Vec<Vec<u8>>)
    ensures
        alpn_protocols(*final(config)) == byte_strings(protocols@),
        served_identity(*final(config)) == served_identity(*old(config)),
{
    config.set_protocols(protocols)
}

/// Reads the public field `alpn_protocols` of a `rustls::ServerConfig`.
/// Trusted: the copy holds what `alpn_protocols` names.
#[verifier::external_body]
fn get_protocols(config: &ServerConfig) -> (protocols: Vec<Vec<u8>>)
    ensures
        byte_strings(protocols@) == alpn_protocols(*config),
{
    config.alpn_protocols.clone()
}

/// Why no TLS context could be built from two PEM texts.
#[derive(Clone, Copy, Debug, PartialEq, Eq)]
pub enum TlsError {
    /// The certificate text is not PEM that can be decoded.
    CertificateParse,
    /// The key text cannot be decoded when looked through for PKCS#8 keys.
    Pkcs8Parse,
    /// The key text cannot be decoded when looked through for RSA keys.
    RsaParse,
    /// The key text holds neither a PKCS#8 key nor an RSA key.
    NoPrivateKey,
    /// rustls did not take the key: it is none that rustls can sign with, or
    /// rustls could not get ready to sign with it.
    InvalidPrivateKey,
}

impl TlsError {
    /// The diagnostic for the failure, naming the files at fault.
    pub open spec fn message_text(self, cert_filename: Seq<char>, key_filename: Seq<char>) -> Seq<char> {
        match self {
            TlsError::CertificateParse => "Can't parse tls certificate file: "@ + cert_filename,
            TlsError::Pkcs8Parse => "Can't parse pkcs8 tls key file: "@ + key_filename,
            TlsError::RsaParse => "Can't parse rsa_private tls key file: "@ + key_filename,
            TlsError::NoPrivateKey => "TLS key path contains no private key. Check '"@
                + cert_filename + "' and '"@ + key_filename + "'."@,
            TlsError::InvalidPrivateKey => "Can't set_single_cert: '"@ + cert_filename + "',  '"@
                + key_filename + "', unexpected error: invalid private key."@,
        }
    }

    /// Writes the diagnostic for the failure, given the paths of the two files.
    pub fn message(&self, cert_filename: &str, key_filename: &str) -> (text: String)
        ensures
            text@ == self.message_text(cert_filename@, key_filename@),
    {
        match self {
            TlsError::CertificateParse => {
                String::from_str("Can't parse tls certificate file: ").concat(cert_filename)
            },
            TlsError::Pkcs8Parse => {
                String::from_str("Can't parse pkcs8 tls key file: ").concat(key_filename)
            },
            TlsError::RsaParse => {
                String::from_str("Can't parse rsa_private tls key file: ").concat(key_filename)
            },
            TlsError::NoPrivateKey => {
                String::from_str("TLS key path contains no private key. Check '").concat(
                    cert_filename,
                ).concat("' and '").concat(key_filename).concat("'.")
            },
            TlsError::InvalidPrivateKey => {
                String::from_str("Can't set_single_cert: '").concat(cert_filename).concat(
                    "',  '",
                ).concat(key_filename).concat("', unexpected error: invalid private key.")
            },
        }
    }
}

/// What a search through a PEM text gave, as plain byte strings.
pub open spec fn found(search: Result<Vec<Vec<u8>>, ()>) -> Option<Seq<Seq<u8>>> {
    match search {
        Ok(items) => Some(byte_strings(items@)),
        Err(_) => None,
    }
}

/// The private key to serve with, given what the key text holds as PKCS#8
/// keys and as RSA keys: the first PKCS#8 key, else the first RSA key. The RSA
/// keys are looked at only where there is no PKCS#8 key.
pub open spec fn selected_key(
    pkcs8: Option<Seq<Seq<u8>>>,
    rsa: Option<Seq<Seq<u8>>>,
) -> Result<Seq<u8>, TlsError> {
    match pkcs8 {
        None => Err(TlsError::Pkcs8Parse),
        Some(pkcs8_keys) => if pkcs8_keys.len() > 0 {
            Ok(pkcs8_keys[0])
        } else {
            match rsa {
                None => Err(TlsError::RsaParse),
                Some(rsa_keys) => if rsa_keys.len() > 0 {
                    Ok(rsa_keys[0])
                } else {
                    Err(TlsError::NoPrivateKey)
                },
            }
        },
    }
}

/// Picks the private key out of the two searches through the key text.
pub fn select_private_key(
    pkcs8: Result<Vec<Vec<u8>>, ()>,
    rsa: Result<Vec<Vec<u8>>, ()>,
) -> (choice: Result<Vec<u8>, TlsError>)
    ensures
        match selected_key(found(pkcs8), found(rsa)) {
            Ok(key) => choice matches Ok(chosen) && chosen@ == key,
            Err(e) => choice == Err::<Vec<u8>, TlsError>(e),
        },
{
    let mut pkcs8_keys = match pkcs8 {
        Ok(keys) => keys,
        Err(_) => {
            return Err(TlsError::Pkcs8Parse);
        },
    };
    if !pkcs8_keys.is_empty() {
        return Ok(pkcs8_keys.remove(0));
    }
    let mut rsa_keys = match rsa {
        Ok(keys) => keys,
        Err(_) => {
            return Err(TlsError::RsaParse);
        },
    };
    if !rsa_keys.is_empty() {
        Ok(rsa_keys.remove(0))
    } else {
        Err(TlsError::NoPrivateKey)
    }
}

/// A PKCS#8 key in the key text is served with, whatever the text holds as
/// RSA keys, and even where the search for RSA keys would fail.
pub proof fn lemma_pkcs8_key_comes_first(pkcs8_keys: Seq<Seq<u8>>, rsa: Option<Seq<Seq<u8>>>)
    requires
        pkcs8_keys.len() > 0,
    ensures
        selected_key(Some(pkcs8_keys), rsa) == Ok::<Seq<u8>, TlsError>(pkcs8_keys[0]),
{
}

/// The protocol name `h2`.
pub open spec fn h2() -> Seq<u8> {
    seq![0x68u8, 0x32u8]
}

/// The protocol name `http/1.1`.
pub open spec fn http_1_1() -> Seq<u8> {
    seq![0x68u8, 0x74u8, 0x74u8, 0x70u8, 0x2fu8, 0x31u8, 0x2eu8, 0x31u8]
}

/// The protocols offered through ALPN, most preferred first: `h2`, then
/// `http/1.1`.
pub open spec fn negotiated_protocols() -> Seq<Seq<u8>> {
    seq![h2(), http_1_1()]
}

/// What a TLS context holds.
pub struct TlsMaterial {
    /// The DER certificates, leaf first.
    pub cert_chain: Seq<Seq<u8>>,
    /// The DER private key.
    pub private_key: Seq<u8>,
    /// The ALPN protocol names, most preferred first.
    pub protocols: Seq<Seq<u8>>,
    /// The chain and the key that the server configuration answers handshakes
    /// with.
    pub served: Option<(Seq<Seq<u8>>, Seq<u8>)>,
}

/// The TLS context of one HTTPS listener: built once, never changed.
pub struct TlsServerContext {
    cert_chain: Vec<Vec<u8>>,
    private_key: Vec<u8>,
    config: ServerConfig,
}

impl View for TlsServerContext {
    type V = TlsMaterial;

    closed spec fn view(&self) -> TlsMaterial {
        TlsMaterial {
            cert_chain: byte_strings(self.cert_chain@),
            private_key: self.private_key@,
            protocols: alpn_protocols(self.config),
            served: served_identity(self.config),
        }
    }
}

impl TlsServerContext {
    #[verifier::type_invariant]
    spec fn serves_what_it_records(self) -> bool {
        &&& alpn_protocols(self.config) == negotiated_protocols()
        &&& served_identity(self.config) == Some(
            (byte_strings(self.cert_chain@), self.private_key@),
        )
    }

    /// The DER certificates of the chain, leaf first.
    pub fn cert_chain(&self) -> (chain: &Vec<Vec<u8>>)
        ensures
            byte_strings(chain@) == self@.cert_chain,
    {
        &self.cert_chain
    }

    /// The DER private key.
    pub fn private_key(&self) -> (key: &Vec<u8>)
        ensures
            key@ == self@.private_key,
    {
        &self.private_key
    }

    /// The ALPN protocol names that the context offers: always `h2`, then
    /// `http/1.1`.
    pub fn protocols(&self) -> (names: Vec<Vec<u8>>)
        ensures
            byte_strings(names@) == self@.protocols,
            byte_strings(names@) == negotiated_protocols(),
    {
        proof {
            use_type_invariant(self);
        }
        get_protocols(&self.config)
    }

    /// Gives up the context for the server configuration that it holds: the
    /// one that serves with the recorded chain and key and offers the two
    /// protocols.
    pub fn into_config(self) -> (config: ServerConfig)
        ensures
            alpn_protocols(config) == self@.protocols,
            alpn_protocols(config) == negotiated_protocols(),
            served_identity(config) == self@.served,
            served_identity(config) == Some((self@.cert_chain, self@.private_key)),
    {
        proof {
            use_type_invariant(&self);
        }
        self.config
    }
}

/// What `read` makes of a certificate text and a key text, given whether
/// rustls takes the key that was found. Everything before that question is
/// decided by the two texts alone.
pub open spec fn read_result(cert_pem: Seq<u8>, key_pem: Seq<u8>, installed: bool) -> Result<
    TlsMaterial,
    TlsError,
> {
    match pem_certificates(cert_pem) {
        None => Err(TlsError::CertificateParse),
        Some(cert_chain) => match selected_key(pem_pkcs8_keys(key_pem), pem_rsa_keys(key_pem)) {
            Err(e) => Err(e),
            Ok(private_key) => if installed {
                Ok(
                    TlsMaterial {
                        cert_chain,
                        private_key,
                        protocols: negotiated_protocols(),
                        served: Some((cert_chain, private_key)),
                    },
                )
            } else {
                Err(TlsError::InvalidPrivateKey)
            },
        },
    }
}

/// Whether what `read` gave is what was expected of it.
pub open spec fn read_gives(
    built: Result<TlsServerContext, TlsError>,
    expected: Result<TlsMaterial, TlsError>,
) -> bool {
    match expected {
        Ok(material) => built matches Ok(context) && context@ == material,
        Err(e) => built matches Err(error) && error == e,
    }
}

/// Whatever the certificate text and the key text hold, a context that is
/// built offers `h2` and then `http/1.1`, and nothing else.
pub proof fn lemma_protocols_are_fixed(cert_pem: Seq<u8>, key_pem: Seq<u8>, installed: bool)
    ensures
        read_result(cert_pem, key_pem, installed) matches Ok(material) ==> material.protocols
            == negotiated_protocols(),
        negotiated_protocols().len() == 2,
        negotiated_protocols()[0] == h2(),
        negotiated_protocols()[1] == http_1_1(),
{
}

/// Where the key text holds a PKCS#8 key, a context that is built records
/// and serves with the first PKCS#8 key, whatever RSA keys the text holds
/// beside it, and no failure to find a key is reported.
pub proof fn lemma_read_prefers_pkcs8(cert_pem: Seq<u8>, key_pem: Seq<u8>, installed: bool)
    requires
        pem_pkcs8_keys(key_pem) matches Some(pkcs8_keys) && pkcs8_keys.len() > 0,
    ensures
        read_result(cert_pem, key_pem, installed) matches Ok(material) ==> {
            &&& material.private_key == pem_pkcs8_keys(key_pem)->0[0]
            &&& material.served == Some((material.cert_chain, material.private_key))
        },
        !(read_result(cert_pem, key_pem, installed) matches Err(e) && (e == TlsError::Pkcs8Parse
            || e == TlsError::RsaParse || e == TlsError::NoPrivateKey)),
{
}

/// Whether rustls takes the key decides nothing but the last step: the
/// errors that the two texts call for come whether or not it would.
pub proof fn lemma_texts_decide_parse_errors(cert_pem: Seq<u8>, key_pem: Seq<u8>)
    ensures
        read_result(cert_pem, key_pem, false) matches Err(e) && e != TlsError::InvalidPrivateKey
            ==> read_result(cert_pem, key_pem, true) == read_result(cert_pem, key_pem, false),
        read_result(cert_pem, key_pem, true) is Err ==> read_result(cert_pem, key_pem, true)
            == read_result(cert_pem, key_pem, false),
        read_result(cert_pem, key_pem, true) is Ok <==> read_result(cert_pem, key_pem, false)
            == Err::<TlsMaterial, TlsError>(TlsError::InvalidPrivateKey),
{
}

/// Finds the certificates in the text of a certificate file.
pub fn certificate_chain(cert_pem: &[u8]) -> (found: Result<Vec<Vec<u8>>, TlsError>)
    ensures
        match pem_certificates(cert_pem@) {
            Some(chain) => found matches Ok(certificates) && byte_strings(certificates@) == chain,
            None => found == Err::<Vec<Vec<u8>>, TlsError>(TlsError::CertificateParse),
        },
{
    match certs(cert_pem) {
        Ok(chain) => Ok(chain),
        Err(_) => Err(TlsError::CertificateParse),
    }
}

/// The ALPN protocol names as bytes.
fn protocol_names() -> (names: Vec<Vec<u8>>)
    ensures
        byte_strings(names@) == negotiated_protocols(),
{
    let first: Vec<u8> = vec![0x68, 0x32];
    let second: Vec<u8> = vec![0x68, 0x74, 0x74, 0x70, 0x2f, 0x31, 0x2e, 0x31];
    let names = vec![first, second];
    assert(byte_strings(names@)[0] =~= h2());
    assert(byte_strings(names@)[1] =~= http_1_1());
    assert(byte_strings(names@) =~= negotiated_protocols());
    names
}

/// Builds the TLS context of a listener from the text of its certificate
/// file and the text of its key file. Which error the texts call for, and
/// which chain and key are handed to rustls, is decided by the texts alone;
/// whether rustls then takes the key is for rustls to say.
pub fn read(cert_pem: &[u8], key_pem: &[u8]) -> (built: Result<TlsServerContext, TlsError>)
    ensures
        read_gives(built, read_result(cert_pem@, key_pem@, true)) || read_gives(
            built,
            read_result(cert_pem@, key_pem@, false),
        ),
{
    let cert_chain = match certificate_chain(cert_pem) {
        Ok(chain) => chain,
        Err(e) => {
            return Err(e);
        },
    };
    let pkcs8 = pkcs8_private_keys(key_pem);
    let rsa = rsa_private_keys(key_pem);
    let private_key = match select_private_key(pkcs8, rsa) {
        Ok(key) => key,
        Err(e) => {
            return Err(e);
        },
    };
    let mut config = new_server_config();
    match set_single_cert(&mut config, &cert_chain, &private_key) {
        Ok(_) => {},
        Err(_) => {
            return Err(TlsError::InvalidPrivateKey);
        },
    }
    let names = protocol_names();
    set_protocols(&mut config, &names);
    Ok(TlsServerContext { cert_chain, private_key, config })
}

} // verus!
