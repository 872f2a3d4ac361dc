//! Plain configuration records for the tools this library backs. The
//! records hold only plain values; reading them from TOML, command-line
//! parsing, and building live TLS connectors are collaborator concerns that
//! happen outside the library, which hands converted values in.

pub mod app;
pub mod cache;
pub mod hdfs;
pub mod krb5;
pub mod pg;
