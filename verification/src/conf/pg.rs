//! Configuration of the Postgres size-reporting tool.
//!
//! TLS is described here by its plain representation: mode plus the PEM
//! certificate files to trust. Building a live TLS connector from it is a
//! collaborator concern outside the library.

use vstd::prelude::*;

verus! {

/// Connection settings of the Postgres size report.
#[derive(Debug)]
pub struct Config {
    /// Connection URL of the server.
    pub connection_url: String,
    /// Estimated total capacity, used to report a usage proportion.
    pub estimated_cap: u64,
    /// How to protect the connection.
    pub tls_mode: TlsModeRep,
}

/// The material a TLS handshake is configured from.
#[derive(Debug)]
pub struct TlsHandshakeRep {
    /// Paths of the PEM certificate files to trust.
    pub pem_files: Vec<String>,
}

/// Whether and how strictly the connection is protected.
#[derive(Debug)]
pub enum TlsModeRep {
    /// No TLS.
    Disabled,
    /// Use TLS when the server offers it.
    Prefer(TlsHandshakeRep),
    /// Require TLS.
    Require(TlsHandshakeRep),
}

} // verus!
