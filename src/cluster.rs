//! Process-wide cluster configuration: the seed nodes, the execution policy,
//! the schema bootstrap statements and the startup check on the trust anchor.
use vstd::prelude::*;

verus! {

/// How many replicas must acknowledge a read or a write.
#[derive(PartialEq, Eq, Structural, Clone, Copy, Debug)]
pub enum Consistency {
    One,
    Quorum,
    LocalQuorum,
    All,
}

/// The fixed configuration a session is built from. It applies to every
/// request; no request overrides it.
pub struct ClusterSettings {
    /// Seed node addresses, `host:port`.
    pub nodes: Vec<String>,
    pub consistency: Consistency,
    /// Bound on every cluster operation, in seconds.
    pub request_timeout_secs: u64,
    /// Whether the transport must be secured with a trust anchor.
    pub tls_required: bool,
}

/// Why the gateway must not start serving.
#[derive(PartialEq, Eq, Structural, Clone, Copy, Debug)]
pub enum StartupError {
    /// Security is required and the trust anchor holds no certificate.
    NoTrustedCertificates,
}

pub const KEYSPACE_STATEMENT: &'static str =
    "CREATE KEYSPACE IF NOT EXISTS demo WITH replication = {'class': 'SimpleStrategy', 'replication_factor': 1}";

pub const TABLE_STATEMENT: &'static str =
    "CREATE TABLE IF NOT EXISTS demo.items (id uuid PRIMARY KEY, name text, value bigint);";

/// The settings the gateway runs with: three local seed nodes, local-quorum
/// consistency, a ten-second timeout, and a secured transport.
pub fn gateway_settings() -> (s: ClusterSettings)
    ensures
        s.nodes@.len() == 3,
        s.nodes@[0]@ == "127.0.0.2:9042"@,
        s.nodes@[1]@ == "127.0.0.3:9042"@,
        s.nodes@[2]@ == "127.0.0.4:9042"@,
        s.consistency == Consistency::LocalQuorum,
        s.request_timeout_secs == 10,
        s.tls_required,
{
    let mut nodes: Vec<String> = Vec::new();
    nodes.push("127.0.0.2:9042".to_owned());
    nodes.push("127.0.0.3:9042".to_owned());
    nodes.push("127.0.0.4:9042".to_owned());
    ClusterSettings {
        nodes,
        consistency: Consistency::LocalQuorum,
        request_timeout_secs: 10,
        tls_required: true,
    }
}

/// The idempotent statements that create the keyspace and then the table,
/// issued once when the session is built.
pub fn bootstrap_statements() -> (r: Vec<&'static str>)
    ensures
        r@.len() == 2,
        r@[0]@ == KEYSPACE_STATEMENT@,
        r@[1]@ == TABLE_STATEMENT@,
{
    let mut r: Vec<&'static str> = Vec::new();
    r.push(KEYSPACE_STATEMENT);
    r.push(TABLE_STATEMENT);
    r
}

/// Decides whether startup may go on with a trust anchor of `cert_count`
/// certificates: it may not when security is required and there is none.
pub fn check_trust_anchor(cert_count: u64, required: bool) -> (r: Result<(), StartupError>)
    ensures
        r is Err <==> (required && cert_count == 0),
        r matches Err(e) ==> e == StartupError::NoTrustedCertificates,
{
    if required && cert_count == 0 {
        Err(StartupError::NoTrustedCertificates)
    } else {
        Ok(())
    }
}

impl StartupError {
    /// A sentence that says what went wrong.
    pub fn describe(&self) -> (s: String)
        ensures
            *self == StartupError::NoTrustedCertificates ==> s@ == "no trusted certificates were supplied"@,
    {
        match self {
            StartupError::NoTrustedCertificates => "no trusted certificates were supplied".to_owned(),
        }
    }
}

} // verus!
