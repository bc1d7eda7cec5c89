//! The relay: which node a WebSocket request is for, the cache of server addresses, and
//! the lookup of a node's server in the memory database.
use crate::text::{find_char, first_index_of, lemma_first_index_props, trim, trimmed};
use vstd::prelude::*;

verus! {

/// How long a cached server address stays fresh, in nanoseconds.
pub const CACHE_TTL_NANOS: u64 = 30_000_000_000;

/// The relay's version.
pub fn version() -> (r: &'static str)
    ensures
        r@ == "0.1.0"@,
{
    "0.1.0"
}

/// The first entry of a comma-separated list that is not empty once trimmed, trimmed.
pub open spec fn first_listed(s: Seq<char>) -> Option<Seq<char>>
    decreases s.len(),
{
    match first_index_of(s, ',') {
        None => if trimmed(s).len() > 0 {
            Some(trimmed(s))
        } else {
            None
        },
        Some(k) => if 0 <= k < s.len() {
            if trimmed(s.subrange(0, k)).len() > 0 {
                Some(trimmed(s.subrange(0, k)))
            } else {
                first_listed(s.subrange(k + 1, s.len() as int))
            }
        } else {
            None
        },
    }
}

/// The node a request is for: the first non-empty entry of its `sec-websocket-protocol`
/// header, a comma-separated list. `None` when the header is missing or lists nothing.
pub fn extract_node_id(header: Option<&str>) -> (r: Option<String>)
    ensures
        match header {
            None => r is None,
            Some(h) => match first_listed(h@) {
                None => r is None,
                Some(id) => r matches Some(v) && v@ == id,
            },
        },
{
    let h = match header {
        None => return None,
        Some(h) => h,
    };
    let n = h.unicode_len();
    let mut start: usize = 0;
    assert(h@.subrange(0, n as int) =~= h@);
    while start <= n
        invariant
            header == Some(h),
            n == h@.len(),
            0 <= start <= n + 1,
            start <= n ==> first_listed(h@) == first_listed(h@.subrange(start as int, n as int)),
            start > n ==> first_listed(h@) is None,
        decreases n + 1 - start,
    {
        let rest = h.substring_char(start, n);
        let ghost rs = rest@;
        proof {
            lemma_first_index_props(rs, ',');
        }
        match find_char(rest, ',') {
            None => {
                assert(first_listed(rs) == (if trimmed(rs).len() > 0 { Some(trimmed(rs)) } else { None::<Seq<char>> }));
                let t = trim(rest);
                if t.unicode_len() > 0 {
                    return Some(String::from_str(t));
                }
                return None;
            },
            Some(k) => {
                assert(first_listed(rs) == (if trimmed(rs.subrange(0, k as int)).len() > 0 {
                    Some(trimmed(rs.subrange(0, k as int)))
                } else {
                    first_listed(rs.subrange(k + 1, rs.len() as int))
                }));
                let piece = rest.substring_char(0, k);
                let t = trim(piece);
                if t.unicode_len() > 0 {
                    return Some(String::from_str(t));
                }
                proof {
                    assert(rs.subrange(k + 1, rs.len() as int) =~= h@.subrange(start + k + 1, n as int));
                }
                start = start + k + 1;
            },
        }
    }
    None
}

/// Whether a cached address counts as fresh: cached at `cached_at` and looked at `now`
/// (nanoseconds of a monotonic clock), it has been there less than the time to live.
pub open spec fn spec_is_fresh(cached_at: u64, now: u64) -> bool {
    (if now >= cached_at {
        now - cached_at
    } else {
        0
    }) < CACHE_TTL_NANOS
}

/// A cached address is used while less than thirty seconds have passed since it was cached,
/// a clock that went back counting as no time passed, and looked up again from then on.
pub proof fn lemma_cache_freshness(cached_at: u64, now: u64)
    ensures
        now <= cached_at ==> spec_is_fresh(cached_at, now),
        now >= cached_at ==> (spec_is_fresh(cached_at, now) <==> now - cached_at < 30_000_000_000),
{
}

/// What the relay does with the cache entry of a node.
#[derive(Clone, Copy, Debug, PartialEq, Eq, Structural)]
pub enum CacheVerdict {
    /// The cached address is used.
    Fresh,
    /// The entry is dropped and the address looked up again.
    Expired,
    /// The address is looked up.
    Missing,
}

/// Decides whether the cache entry of a node, cached at `cached_at`, is used at `now`.
pub fn cache_verdict(cached_at: Option<u64>, now: u64) -> (r: CacheVerdict)
    ensures
        r == (match cached_at {
            None => CacheVerdict::Missing,
            Some(t) => if spec_is_fresh(t, now) {
                CacheVerdict::Fresh
            } else {
                CacheVerdict::Expired
            },
        }),
        cached_at is None ==> r == CacheVerdict::Missing,
        cached_at matches Some(t) ==> r != CacheVerdict::Missing && (r == CacheVerdict::Fresh <==> (now
            < t || now - t < 30_000_000_000)),
{
    match cached_at {
        None => CacheVerdict::Missing,
        Some(t) => {
            if now.saturating_sub(t) < CACHE_TTL_NANOS {
                CacheVerdict::Fresh
            } else {
                CacheVerdict::Expired
            }
        },
    }
}

/// Why the server of a node could not be found.
#[derive(Clone, Debug, PartialEq, Eq)]
pub enum LookupError {
    /// No key in the database matches the node.
    NoEntries,
    /// The matching key names no server.
    ServerNotFound { node_id: String },
}

/// The database key pattern of a node's entry: `phirepass:users:*:nodes:<node id>`.
pub fn node_key_pattern(node_id: &str) -> (r: String)
    ensures
        r@ == "phirepass:users:*:nodes:"@ + node_id@,
{
    String::from_str("phirepass:users:*:nodes:").concat(node_id)
}

/// A lookup of the server of a node in the memory database, one database request at a
/// time.
#[derive(Debug, PartialEq, Eq)]
pub enum NodeLookup {
    /// The keys matching `pattern` are to be fetched.
    ScanKeys { node_id: String, pattern: String },
    /// The `server` field of the entry under `key` is to be fetched.
    FetchServer { node_id: String, key: String },
    /// The lookup is over.
    Done(Result<String, LookupError>),
}

/// Looks up servers of nodes in the memory database, through connection `C`.
#[derive(Debug)]
pub struct MemoryDB<C> {
    pub connection: C,
}

impl<C> MemoryDB<C> {
    /// A lookup through the connection `connection`.
    pub fn create(connection: C) -> (r: MemoryDB<C>)
        ensures
            r.connection == connection,
    {
        MemoryDB { connection }
    }

    /// The first step of looking up the server of `node_id`: scanning for its key.
    pub fn get_user_server_by_node_id(&self, node_id: &str) -> (r: NodeLookup)
        ensures
            r matches NodeLookup::ScanKeys { node_id: n, pattern } && n@ == node_id@ && pattern@
                == "phirepass:users:*:nodes:"@ + node_id@,
    {
        NodeLookup::ScanKeys { node_id: String::from_str(node_id), pattern: node_key_pattern(node_id) }
    }
}

impl NodeLookup {
    /// The next step once the keys matching the pattern are known: the first key's server
    /// is fetched; with no keys the lookup fails.
    pub fn on_keys(self, keys: Vec<String>) -> (r: NodeLookup)
        ensures
            match self {
                NodeLookup::ScanKeys { node_id, .. } => if keys@.len() == 0 {
                    r == NodeLookup::Done(Err(LookupError::NoEntries))
                } else {
                    r matches NodeLookup::FetchServer { node_id: n, key } && n == node_id && key
                        == keys@[0]
                },
                _ => r == self,
            },
    {
        match self {
            NodeLookup::ScanKeys { node_id, .. } => {
                if keys.len() == 0 {
                    NodeLookup::Done(Err(LookupError::NoEntries))
                } else {
                    let mut keys = keys;
                    let key = keys.swap_remove(0);
                    NodeLookup::FetchServer { node_id, key }
                }
            },
            other => other,
        }
    }

    /// The outcome once the entry's `server` field is known: the server, or a failure when
    /// the field is missing.
    pub fn on_server(self, server: Option<String>) -> (r: NodeLookup)
        ensures
            match self {
                NodeLookup::FetchServer { node_id, .. } => match server {
                    Some(s) => r == NodeLookup::Done(Ok(s)),
                    None => r == NodeLookup::Done(Err(LookupError::ServerNotFound { node_id })),
                },
                _ => r == self,
            },
    {
        match self {
            NodeLookup::FetchServer { node_id, .. } => match server {
                Some(s) => NodeLookup::Done(Ok(s)),
                None => NodeLookup::Done(Err(LookupError::ServerNotFound { node_id })),
            },
            other => other,
        }
    }
}

/// Where a server of the relay can be reached.
#[derive(Clone, Debug, PartialEq, Eq)]
pub struct ServerIdentifier {
    /// The server's UUID, as its 128-bit value.
    pub id: u128,
    pub private_ip: String,
    pub public_ip: String,
    pub port: u16,
    pub fqdn: String,
}

/// The HTTP status of a request the relay refuses.
pub const BAD_REQUEST: u16 = 400;

/// Whether a request goes on to a server: it does when it names a node, carried on as the
/// node id; otherwise it is answered with a bad-request status.
pub fn request_filter(header: Option<&str>) -> (r: Result<String, u16>)
    ensures
        match header {
            Some(h) => match first_listed(h@) {
                Some(id) => r matches Ok(v) && v@ == id,
                None => r == Err::<String, u16>(BAD_REQUEST),
            },
            None => r == Err::<String, u16>(BAD_REQUEST),
        },
{
    match extract_node_id(header) {
        Some(id) => Ok(id),
        None => Err(BAD_REQUEST),
    }
}

/// The server a request is passed to, as address, port and TLS name: the private address
/// of the node's server; a node whose server is unknown is answered with a bad-request
/// status.
pub fn upstream_peer(server: Result<ServerIdentifier, LookupError>) -> (r: Result<(String, u16, String), u16>)
    ensures
        match server {
            Ok(s) => r == Ok::<(String, u16, String), u16>((s.private_ip, s.port, s.fqdn)),
            Err(_) => r == Err::<(String, u16, String), u16>(BAD_REQUEST),
        },
{
    match server {
        Ok(s) => Ok((s.private_ip, s.port, s.fqdn)),
        Err(_) => Err(BAD_REQUEST),
    }
}

} // verus!
