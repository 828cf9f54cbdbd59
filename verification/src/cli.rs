//! The configuration a listener is started with.

use std::path::PathBuf;
use vstd::prelude::*;

verus! {

/// `std::path::PathBuf`, carried through as an opaque value: the library
/// never looks inside a path, it only hands it on and names it in errors.
#[verifier::external_type_specification]
#[verifier::external_body]
pub struct ExPathBuf(std::path::PathBuf);

/// `PathBuf::clone` returns a path equal to the one it was called on.
pub assume_specification[ <std::path::PathBuf as Clone>::clone ](path: &std::path::PathBuf) -> (copy:
    std::path::PathBuf)
    ensures
        copy == *path,
;

/// Where the TLS material lives and which port serves it.
#[derive(Debug, Clone)]
pub struct SSLOptions {
    /// Path of the PEM file with the PKCS#8 private key.
    pub server_key: Option<PathBuf>,
    /// Path of the PEM file with the certificate chain, leaf first.
    pub server_cert: Option<PathBuf>,
    /// Port of the TLS listener.
    pub ssl_port: u16,
}

/// Everything the listener needs to know before it binds.
#[derive(Debug, Clone)]
pub struct ServerArgs {
    /// Port of the plaintext listener.
    pub port: u16,
    /// Address of the interface to bind.
    pub interface: String,
    /// TLS settings.
    pub ssl: SSLOptions,
}

/// What a configuration asks for.
#[derive(Debug, Clone, PartialEq)]
pub enum Plan {
    /// No TLS file is named: serve plaintext.
    Plain,
    /// Both TLS files are named: serve TLS.
    Tls { server_cert: PathBuf, server_key: PathBuf },
    /// Only one of the two TLS files is named: a configuration error, not a
    /// request for plaintext.
    Incomplete,
}

/// The plan a configuration stands for: TLS if and only if both files are
/// named, plaintext if neither is, and an error in between.
pub open spec fn plan(config: ServerArgs) -> Plan {
    match (config.ssl.server_cert, config.ssl.server_key) {
        (Some(server_cert), Some(server_key)) => Plan::Tls { server_cert, server_key },
        (None, None) => Plan::Plain,
        _ => Plan::Incomplete,
    }
}

/// Reads the plan off a configuration.
pub fn plan_of(config: &ServerArgs) -> (p: Plan)
    ensures
        p == plan(*config),
{
    match (&config.ssl.server_cert, &config.ssl.server_key) {
        (Some(server_cert), Some(server_key)) => Plan::Tls {
            server_cert: server_cert.clone(),
            server_key: server_key.clone(),
        },
        (None, None) => Plan::Plain,
        _ => Plan::Incomplete,
    }
}

} // verus!
