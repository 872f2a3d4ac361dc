//! Configuration of Kerberos ticket acquisition.

use vstd::prelude::*;

verus! {

/// How the ticket is acquired: by password or by keytab file.
#[derive(Debug)]
pub enum Auth {
    /// Authenticate with this password.
    Password(String),
    /// Authenticate with the keytab file at this path.
    Keytab(String),
}

/// Configuration of one `kinit` invocation.
#[derive(Debug)]
pub struct KInitConfig {
    /// The principal to acquire a ticket for.
    pub login: String,
    /// The credential used to acquire it.
    pub auth: Auth,
}

} // verus!
