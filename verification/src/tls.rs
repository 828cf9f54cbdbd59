//! The TLS configurator: from the contents of a certificate file and a key file
//! to a server-side TLS configuration, or to the reason there is none.
//!
//! Reading the two files is the caller's business. What was read arrives here
//! as a [`PemFile`]; PEM decoding is done by `rustls-pemfile` and the final
//! configuration is built by `rustls`.

use rustls::ServerConfig;
use std::path::PathBuf;
use vstd::prelude::*;

verus! {

/// `rustls::ServerConfig`, the finished server-side TLS configuration. The
/// library builds it and passes it on; it never inspects it.
#[verifier::external_type_specification]
#[verifier::external_body]
pub struct ExServerConfig(rustls::ServerConfig);

/// `rustls::Error`, the reason `rustls` gives for refusing key material.
#[verifier::external_type_specification]
#[verifier::external_body]
pub struct ExTlsError(rustls::Error);

/// `std::io::Error`, which `rustls-pemfile` reports for a PEM section it
/// cannot decode.
#[verifier::external_type_specification]
#[verifier::external_body]
pub struct ExIoError(std::io::Error);

/// A file as the caller found it on disk.
#[derive(Debug, Clone, PartialEq)]
pub struct PemFile {
    /// Where the file was looked for.
    pub path: PathBuf,
    /// Its bytes, or `None` if it could not be opened.
    pub contents: Option<Vec<u8>>,
}

/// Why no TLS configuration could be produced.
#[derive(Debug, PartialEq)]
pub enum ConfigError {
    /// The file at this path could not be opened.
    FileNotFound(PathBuf),
    /// The file at this path holds no decodable certificate.
    MalformedCertificate(PathBuf),
    /// The file at this path holds no decodable PKCS#8 private key.
    MalformedKey(PathBuf),
    /// `rustls` refused the chain and key.
    TlsConfigError(rustls::Error),
}

/// A certificate chain and the private key that goes with its leaf, both as
/// DER. Whether the key really matches the leaf is not checked here.
#[derive(Debug, Clone, PartialEq)]
pub struct TlsMaterial {
    /// The certificates in file order, leaf first.
    pub certificate_chain: Vec<Vec<u8>>,
    /// The first PKCS#8 key of the key file.
    pub private_key: Vec<u8>,
}

impl TlsMaterial {
    /// The chain holds at least the leaf certificate.
    pub open spec fn well_formed(&self) -> bool {
        self.certificate_chain@.len() > 0
    }
}

/// The DER blocks that `rustls_pemfile::certs` extracts from the PEM text
/// `pem`, in file order; `None` where it reports the text as undecodable.
pub uninterp spec fn pem_certificates(pem: Seq<u8>) -> Option<Seq<Seq<u8>>>;

/// The DER blocks that `rustls_pemfile::pkcs8_private_keys` extracts from the
/// PEM text `pem`, in file order; `None` where it reports the text as
/// undecodable.
pub uninterp spec fn pem_pkcs8_keys(pem: Seq<u8>) -> Option<Seq<Seq<u8>>>;

/// A decoding result that yields something to work with: decoding succeeded
/// and found at least one block.
pub open spec fn usable(blocks: Option<Seq<Seq<u8>>>) -> bool {
    blocks matches Some(list) && list.len() > 0
}

/// A list of DER blocks as a sequence of byte sequences.
pub open spec fn der_blocks(list: Vec<Vec<u8>>) -> Seq<Seq<u8>> {
    Seq::new(list@.len(), |i: int| list@[i]@)
}

/// The same for a list that may be missing.
pub open spec fn decoded_blocks(list: Option<Vec<Vec<u8>>>) -> Option<Seq<Seq<u8>>> {
    match list {
        Some(blocks) => Some(der_blocks(blocks)),
        None => None,
    }
}

/// Calls `rustls_pemfile::certs` on an in-memory reader over `pem`.
///
/// Trusted: the outcome is a function of the bytes alone (the reader cannot
/// fail, so every error is a decoding error), and it is the value that
/// [`pem_certificates`] stands for.
#[verifier::external_body]
fn read_certificates(pem: &[u8]) -> (r: Result<Vec<Vec<u8>>, std::io::Error>)
    ensures
        match r {
            Ok(blocks) => pem_certificates(pem@) == Some(der_blocks(blocks)),
            Err(_) => pem_certificates(pem@) is None,
        },
{
    let mut reader = pem;
    rustls_pemfile::certs(&mut reader)
}

/// Calls `rustls_pemfile::pkcs8_private_keys` on an in-memory reader over
/// `pem`.
///
/// Trusted: the outcome is a function of the bytes alone, and it is the value
/// that [`pem_pkcs8_keys`] stands for.
#[verifier::external_body]
fn read_pkcs8_keys(pem: &[u8]) -> (r: Result<Vec<Vec<u8>>, std::io::Error>)
    ensures
        match r {
            Ok(blocks) => pem_pkcs8_keys(pem@) == Some(der_blocks(blocks)),
            Err(_) => pem_pkcs8_keys(pem@) is None,
        },
{
    let mut reader = pem;
    rustls_pemfile::pkcs8_private_keys(&mut reader)
}

/// Builds a `rustls::ServerConfig` with the safe default cipher suites, key
/// exchange groups and protocol versions, without client authentication, that
/// presents `material` on every connection
/// (`ServerConfig::builder().with_safe_defaults().with_no_client_auth().with_single_cert(..)`).
///
/// Trusted, and nothing is claimed of the outcome: whether `rustls` accepts the
/// key depends on its cryptographic back end.
#[verifier::external_body]
fn build_server_config(material: TlsMaterial) -> Result<ServerConfig, rustls::Error> {
    let chain = material.certificate_chain.into_iter().map(rustls::Certificate).collect();
    let key = rustls::PrivateKey(material.private_key);
    ServerConfig::builder().with_safe_defaults().with_no_client_auth().with_single_cert(chain, key)
}

/// Forgets why decoding failed: what remains is the list of blocks, if any.
fn decoded(parsed: Result<Vec<Vec<u8>>, std::io::Error>) -> (blocks: Option<Vec<Vec<u8>>>)
    ensures
        parsed matches Ok(list) ==> blocks == Some(list),
        parsed is Err ==> blocks is None,
{
    match parsed {
        Ok(list) => Some(list),
        Err(_) => None,
    }
}

/// Picks the TLS material out of what the two files decoded to.
///
/// The whole certificate list becomes the chain, in file order, and the first
/// key becomes the private key. A certificate file without a usable
/// certificate is reported before anything is said about the key file.
pub fn select_material(
    certificates: Option<Vec<Vec<u8>>>,
    keys: Option<Vec<Vec<u8>>>,
    cert_path: PathBuf,
    key_path: PathBuf,
) -> (r: Result<TlsMaterial, ConfigError>)
    ensures
        !usable(decoded_blocks(certificates)) ==> r == Err::<TlsMaterial, ConfigError>(
            ConfigError::MalformedCertificate(cert_path),
        ),
        usable(decoded_blocks(certificates)) && !usable(decoded_blocks(keys)) ==> r == Err::<
            TlsMaterial,
            ConfigError,
        >(ConfigError::MalformedKey(key_path)),
        usable(decoded_blocks(certificates)) && usable(decoded_blocks(keys)) ==> {
            &&& r matches Ok(material)
            &&& material.well_formed()
            &&& der_blocks(material.certificate_chain) == decoded_blocks(certificates)->0
            &&& material.private_key@ == decoded_blocks(keys)->0[0]
        },
{
    let chain = match certificates {
        Some(list) => list,
        None => { return Err(ConfigError::MalformedCertificate(cert_path)); },
    };
    if chain.len() == 0 {
        return Err(ConfigError::MalformedCertificate(cert_path));
    }
    let mut key_list = match keys {
        Some(list) => list,
        None => { return Err(ConfigError::MalformedKey(key_path)); },
    };
    if key_list.len() == 0 {
        return Err(ConfigError::MalformedKey(key_path));
    }
    let private_key = key_list.swap_remove(0);
    Ok(TlsMaterial { certificate_chain: chain, private_key })
}

/// The reason two files yield no TLS material, if there is one.
///
/// A file that could not be opened comes first, the certificate file before
/// the key file; then a certificate file without a decodable certificate; then
/// a key file without a decodable PKCS#8 key.
pub open spec fn load_failure(server_cert: PemFile, server_key: PemFile) -> Option<ConfigError> {
    if server_cert.contents is None {
        Some(ConfigError::FileNotFound(server_cert.path))
    } else if server_key.contents is None {
        Some(ConfigError::FileNotFound(server_key.path))
    } else if !usable(pem_certificates(server_cert.contents->0@)) {
        Some(ConfigError::MalformedCertificate(server_cert.path))
    } else if !usable(pem_pkcs8_keys(server_key.contents->0@)) {
        Some(ConfigError::MalformedKey(server_key.path))
    } else {
        None
    }
}

/// Decodes the two files and picks the TLS material out of them.
///
/// Fails exactly as [`load_failure`] says. Otherwise the chain is every
/// certificate of the certificate file, in file order, and the key is the
/// first PKCS#8 key of the key file.
pub fn load_material(server_cert: PemFile, server_key: PemFile) -> (r: Result<
    TlsMaterial,
    ConfigError,
>)
    ensures
        match load_failure(server_cert, server_key) {
            Some(e) => r == Err::<TlsMaterial, ConfigError>(e),
            None => {
                &&& r matches Ok(material)
                &&& material.well_formed()
                &&& Some(der_blocks(material.certificate_chain)) == pem_certificates(
                    server_cert.contents->0@,
                )
                &&& material.private_key@ == pem_pkcs8_keys(server_key.contents->0@)->0[0]
            },
        },
{
    let cert_pem = match server_cert.contents {
        Some(bytes) => bytes,
        None => { return Err(ConfigError::FileNotFound(server_cert.path)); },
    };
    let key_pem = match server_key.contents {
        Some(bytes) => bytes,
        None => { return Err(ConfigError::FileNotFound(server_key.path)); },
    };
    let certificates = decoded(read_certificates(cert_pem.as_slice()));
    let keys = decoded(read_pkcs8_keys(key_pem.as_slice()));
    select_material(certificates, keys, server_cert.path, server_key.path)
}

/// Turns the verdict of `rustls` into the library's own result.
pub fn tls_outcome(built: Result<ServerConfig, rustls::Error>) -> (r: Result<
    ServerConfig,
    ConfigError,
>)
    ensures
        built matches Ok(config) ==> r == Ok::<ServerConfig, ConfigError>(config),
        built matches Err(reason) ==> r == Err::<ServerConfig, ConfigError>(
            ConfigError::TlsConfigError(reason),
        ),
{
    match built {
        Ok(config) => Ok(config),
        Err(reason) => Err(ConfigError::TlsConfigError(reason)),
    }
}

/// Produces the server-side TLS configuration for a certificate file and a key
/// file, without client authentication.
///
/// Every failure of [`load_material`] is passed on unchanged. Where the
/// material is complete, `rustls` has the last word: the result is its
/// configuration, or its refusal as [`ConfigError::TlsConfigError`].
pub fn configure_tls(server_cert: PemFile, server_key: PemFile) -> (r: Result<
    ServerConfig,
    ConfigError,
>)
    ensures
        match load_failure(server_cert, server_key) {
            Some(e) => r == Err::<ServerConfig, ConfigError>(e),
            None => r is Ok || r matches Err(ConfigError::TlsConfigError(_)),
        },
{
    match load_material(server_cert, server_key) {
        Ok(material) => tls_outcome(build_server_config(material)),
        Err(e) => Err(e),
    }
}

} // verus!
