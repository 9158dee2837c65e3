//! Configuration parsing helpers: the frontend transport selector and the
//! derivation of database connection parameters from a parsed URL's parts.
//! Reading flags, environment and the URL itself happens outside the library;
//! this module fixes the defaults.

use crate::server::error::Error;
use vstd::prelude::*;
use vstd::string::StringSliceAdditionalSpecFns;

verus! {

/// Which transport the agent-facing frontend uses.
#[derive(Debug, Copy, Clone, PartialEq, Eq, Structural)]
pub enum TransportType {
    Udp,
    Dns,
    Http,
}

/// The names (long and short) that select a transport.
pub open spec fn transport_of_name(n: Seq<u8>) -> Option<TransportType> {
    if n == seq!['u' as u8, 'd' as u8, 'p' as u8] || n == seq!['u' as u8] {
        Some(TransportType::Udp)
    } else if n == seq!['d' as u8, 'n' as u8, 's' as u8] || n == seq!['d' as u8] {
        Some(TransportType::Dns)
    } else if n == seq!['h' as u8, 't' as u8, 't' as u8, 'p' as u8] || n == seq!['h' as u8] {
        Some(TransportType::Http)
    } else {
        None
    }
}

/// True exactly when the two byte strings are equal.
fn bytes_eq(t: &[u8], name: &[u8]) -> (r: bool)
    ensures
        r == (t@ == name@),
{
    if t.len() != name.len() {
        return false;
    }
    let n = t.len();
    let mut i: usize = 0;
    while i < n
        invariant
            n == t@.len(),
            t@.len() == name@.len(),
            i <= n,
            forall|k: int| 0 <= k < i ==> t@[k] == name@[k],
        decreases n - i,
    {
        if t[i] != name[i] {
            return false;
        }
        i += 1;
    }
    proof {
        assert(t@ =~= name@);
    }
    true
}

impl TransportType {
    /// Parse a transport selector; anything unassigned is an invalid
    /// argument carrying the rejected text.
    pub fn from_str(s: &str) -> (r: Result<TransportType, Error>)
        ensures
            match r {
                Ok(t) => transport_of_name(s.spec_bytes()) == Some(t),
                Err(e) => transport_of_name(s.spec_bytes()) is None && e.is_invalid_argument(),
            },
    {
        let t = s.as_bytes();
        let udp: Vec<u8> = vec!['u' as u8, 'd' as u8, 'p' as u8];
        let u: Vec<u8> = vec!['u' as u8];
        let dns: Vec<u8> = vec!['d' as u8, 'n' as u8, 's' as u8];
        let d: Vec<u8> = vec!['d' as u8];
        let http: Vec<u8> = vec!['h' as u8, 't' as u8, 't' as u8, 'p' as u8];
        let h: Vec<u8> = vec!['h' as u8];
        proof {
            assert(udp@ =~= seq!['u' as u8, 'd' as u8, 'p' as u8]);
            assert(u@ =~= seq!['u' as u8]);
            assert(dns@ =~= seq!['d' as u8, 'n' as u8, 's' as u8]);
            assert(d@ =~= seq!['d' as u8]);
            assert(http@ =~= seq!['h' as u8, 't' as u8, 't' as u8, 'p' as u8]);
            assert(h@ =~= seq!['h' as u8]);
        }
        if bytes_eq(t, udp.as_slice()) || bytes_eq(t, u.as_slice()) {
            Ok(TransportType::Udp)
        } else if bytes_eq(t, dns.as_slice()) || bytes_eq(t, d.as_slice()) {
            Ok(TransportType::Dns)
        } else if bytes_eq(t, http.as_slice()) || bytes_eq(t, h.as_slice()) {
            Ok(TransportType::Http)
        } else {
            Err(Error::InvalidArgument(s.to_owned()))
        }
    }
}

/// Database connection parameters, with every default applied.
pub struct PgParams {
    pub host: String,
    pub port: u16,
    pub username: String,
    pub database: String,
}

/// Derive connection parameters from the parts of a database URL: a missing
/// host falls back to localhost, a missing port to 5432, and a missing first
/// path segment to the default database name.
pub fn pg_params(
    host: Option<String>,
    port: Option<u16>,
    username: String,
    first_path_segment: Option<String>,
) -> (r: PgParams)
    ensures
        r.host@ == match host {
            Some(h) => h@,
            None => "localhost"@,
        },
        r.port == match port {
            Some(p) => p,
            None => 5432u16,
        },
        r.username@ == username@,
        r.database@ == match first_path_segment {
            Some(s) => s@,
            None => "pr2.db"@,
        },
{
    let host = match host {
        Some(h) => h,
        None => String::from_str("localhost"),
    };
    let port = match port {
        Some(p) => p,
        None => 5432,
    };
    let database = match first_path_segment {
        Some(s) => s,
        None => String::from_str("pr2.db"),
    };
    PgParams { host, port, username, database }
}

} // verus!
