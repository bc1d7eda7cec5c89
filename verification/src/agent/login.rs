//! Logging the agent in and out of a server: the addresses it calls, how it reads a
//! refusal, and how it retries its connection.
use crate::agent::creds::StoredState;
use crate::text::{ascii_lower, decimal, eq_str, push_decimal, trim, trimmed};
use vstd::prelude::*;

verus! {

/// The address of the server's login call: HTTPS without a port for ports 443 and 8443,
/// plain HTTP with the port otherwise.
pub open spec fn spec_login_url(host: Seq<char>, port: u16) -> Seq<char> {
    if port == 443 || port == 8443 {
        "https://"@ + host + "/api/nodes/login"@
    } else {
        "http://"@ + host + seq![':'] + decimal(port as nat) + "/api/nodes/login"@
    }
}

/// The address of the server's login call.
pub fn login_url(server_host: &str, server_port: u16) -> (r: String)
    ensures
        r@ == spec_login_url(server_host@, server_port),
        (server_port == 443 || server_port == 8443) ==> r@ == "https://"@ + server_host@
            + "/api/nodes/login"@,
        (server_port != 443 && server_port != 8443) ==> r@ == "http://"@ + server_host@ + seq![':']
            + decimal(server_port as nat) + "/api/nodes/login"@,
{
    proof {
        lemma_login_logout_urls(server_host@, server_port);
    }
    if server_port == 443 || server_port == 8443 {
        String::from_str("https://").concat(server_host).concat("/api/nodes/login")
    } else {
        let mut out = String::from_str("http://").concat(server_host);
        proof {
            reveal_strlit(":");
        }
        out.append(":");
        push_decimal(&mut out, server_port as u64);
        out.append("/api/nodes/login");
        out
    }
}

/// The address of the server's logout call: HTTPS for port 443, plain HTTP otherwise,
/// always with the port.
pub open spec fn spec_logout_url(host: Seq<char>, port: u16) -> Seq<char> {
    (if port == 443 {
        "https"@
    } else {
        "http"@
    }) + "://"@ + host + seq![':'] + decimal(port as nat) + "/api/nodes/logout"@
}

/// The address of the server's logout call.
pub fn logout_url(server_host: &str, server_port: u16) -> (r: String)
    ensures
        r@ == spec_logout_url(server_host@, server_port),
        server_port == 443 ==> r@ == "https://"@ + server_host@ + seq![':'] + decimal(server_port as nat)
            + "/api/nodes/logout"@,
        server_port != 443 ==> r@ == "http://"@ + server_host@ + seq![':'] + decimal(server_port as nat)
            + "/api/nodes/logout"@,
{
    proof {
        lemma_login_logout_urls(server_host@, server_port);
    }
    let scheme = if server_port == 443 {
        "https"
    } else {
        "http"
    };
    let mut out = String::from_str(scheme).concat("://").concat(server_host);
    proof {
        reveal_strlit(":");
    }
    out.append(":");
    push_decimal(&mut out, server_port as u64);
    out.append("/api/nodes/logout");
    out
}

/// Whether `needle` occurs in `hay` at position `i`, ignoring ASCII letter case in `hay`.
pub open spec fn occurs_at(hay: Seq<char>, needle: Seq<char>, i: int) -> bool {
    0 <= i && i + needle.len() <= hay.len() && forall|j: int|
        0 <= j < needle.len() ==> ascii_lower(#[trigger] hay[i + j]) == needle[j]
}

/// Whether `needle` occurs in `hay` with `hay` lowercased (ASCII letters only).
pub open spec fn contains_lowered(hay: Seq<char>, needle: Seq<char>) -> bool {
    exists|i: int| occurs_at(hay, needle, i)
}

/// Login goes over HTTPS without a port to ports 443 and 8443, and over plain HTTP with the
/// port to any other; logout goes over HTTPS only to port 443, and always names the port.
pub proof fn lemma_login_logout_urls(host: Seq<char>, port: u16)
    ensures
        (port == 443 || port == 8443) ==> spec_login_url(host, port) == "https://"@ + host
            + "/api/nodes/login"@,
        (port != 443 && port != 8443) ==> spec_login_url(host, port) == "http://"@ + host + seq![':']
            + decimal(port as nat) + "/api/nodes/login"@,
        port == 443 ==> spec_logout_url(host, port) == "https://"@ + host + seq![':'] + decimal(
            port as nat,
        ) + "/api/nodes/logout"@,
        port != 443 ==> spec_logout_url(host, port) == "http://"@ + host + seq![':'] + decimal(
            port as nat,
        ) + "/api/nodes/logout"@,
{
    reveal_strlit("https");
    reveal_strlit("http");
    reveal_strlit("://");
    reveal_strlit("https://");
    reveal_strlit("http://");
    assert("https"@ + "://"@ =~= "https://"@);
    assert("http"@ + "://"@ =~= "http://"@);
}

/// `c` with an ASCII capital letter turned into its small letter.
fn to_ascii_lower(c: char) -> (r: char)
    ensures
        r == ascii_lower(c),
{
    if 'A' <= c && c <= 'Z' {
        let b = (c as u8) + 32;
        b as char
    } else {
        c
    }
}

/// Whether `needle` occurs in `hay` with `hay`'s ASCII letters lowercased.
pub fn contains_ignoring_ascii_case(hay: &str, needle: &str) -> (r: bool)
    ensures
        r == contains_lowered(hay@, needle@),
{
    let n = hay.unicode_len();
    let m = needle.unicode_len();
    if m > n {
        proof {
            assert forall|i: int| !occurs_at(hay@, needle@, i) by {}
        }
        return false;
    }
    let mut i: usize = 0;
    while i <= n - m
        invariant
            n == hay@.len(),
            m == needle@.len(),
            m <= n,
            0 <= i <= n - m + 1,
            forall|k: int| 0 <= k < i ==> !occurs_at(hay@, needle@, k),
        decreases n - m + 1 - i,
    {
        let mut j: usize = 0;
        let mut ok = true;
        while j < m && ok
            invariant
                n == hay@.len(),
                m == needle@.len(),
                i + m <= n,
                0 <= j <= m,
                ok == (forall|q: int| 0 <= q < j ==> ascii_lower(#[trigger] hay@[i + q]) == needle@[q]),
            decreases m - j,
        {
            if to_ascii_lower(hay.get_char(i + j)) != needle.get_char(j) {
                ok = false;
                proof {
                    assert(!(forall|q: int| 0 <= q < j + 1 ==> ascii_lower(#[trigger] hay@[i + q]) == needle@[q]));
                }
            }
            j = j + 1;
        }
        if ok {
            assert(occurs_at(hay@, needle@, i as int));
            return true;
        }
        assert(!occurs_at(hay@, needle@, i as int)) by {
            assert(exists|q: int| 0 <= q < j && ascii_lower(#[trigger] hay@[i + q]) != needle@[q]);
        }
        i = i + 1;
    }
    assert forall|k: int| !occurs_at(hay@, needle@, k) by {
        if 0 <= k < i {
        } else if k >= i {
            assert(k + m > n);
        }
    }
    false
}

/// Whether a server's refusal of a login means the stored credentials are spent: its
/// message mentions, in any ASCII letter case, an expired, revoked or invalid token, or a
/// failed token check.
pub open spec fn spec_should_clear(message: Seq<char>) -> bool {
    ||| contains_lowered(message, "expired"@)
    ||| contains_lowered(message, "revoked"@)
    ||| contains_lowered(message, "invalid token"@)
    ||| contains_lowered(message, "failed to verify token"@)
    ||| contains_lowered(message, "token has expired"@)
}

/// Whether a server's refusal of a login means the stored credentials are to be deleted.
pub fn should_clear_credentials(error_message: &str) -> (r: bool)
    ensures
        r == spec_should_clear(error_message@),
        contains_lowered(error_message@, "expired"@) ==> r,
        contains_lowered(error_message@, "revoked"@) ==> r,
        contains_lowered(error_message@, "invalid token"@) ==> r,
        contains_lowered(error_message@, "failed to verify token"@) ==> r,
        r ==> contains_lowered(error_message@, "expired"@) || contains_lowered(error_message@, "revoked"@)
            || contains_lowered(error_message@, "invalid token"@) || contains_lowered(
            error_message@,
            "failed to verify token"@,
        ),
{
    proof {
        lemma_clearing_phrases(error_message@);
    }
    contains_ignoring_ascii_case(error_message, "expired") || contains_ignoring_ascii_case(
        error_message,
        "revoked",
    ) || contains_ignoring_ascii_case(error_message, "invalid token")
        || contains_ignoring_ascii_case(error_message, "failed to verify token")
        || contains_ignoring_ascii_case(error_message, "token has expired")
}

/// A refused login clears the stored credentials exactly when its message mentions, in any
/// ASCII letter case, `expired`, `revoked`, `invalid token` or `failed to verify token`
/// (a message saying the token has expired mentions `expired`).
pub proof fn lemma_clearing_phrases(m: Seq<char>)
    ensures
        contains_lowered(m, "expired"@) ==> spec_should_clear(m),
        contains_lowered(m, "revoked"@) ==> spec_should_clear(m),
        contains_lowered(m, "invalid token"@) ==> spec_should_clear(m),
        contains_lowered(m, "failed to verify token"@) ==> spec_should_clear(m),
        spec_should_clear(m) ==> contains_lowered(m, "expired"@) || contains_lowered(m, "revoked"@)
            || contains_lowered(m, "invalid token"@) || contains_lowered(m, "failed to verify token"@),
{
    if contains_lowered(m, "token has expired"@) {
        let i = choose|i: int| occurs_at(m, "token has expired"@, i);
        reveal_strlit("token has expired");
        reveal_strlit("expired");
        assert(occurs_at(m, "expired"@, i + 10)) by {
            assert forall|j: int| 0 <= j < "expired"@.len() implies ascii_lower(#[trigger] m[i + 10 + j])
                == "expired"@[j] by {
                assert(ascii_lower(m[i + (10 + j)]) == "token has expired"@[10 + j]);
            }
        }
    }
}

/// The attempt count after one more failed connection, stopping at `u32::MAX`.
pub fn next_attempt(attempt: u32) -> (r: u32)
    ensures
        r == (if attempt == u32::MAX {
            u32::MAX
        } else {
            (attempt + 1) as u32
        }),
{
    attempt.saturating_add(1)
}

/// How long to wait before reconnecting after `attempt` failed attempts: two to the power
/// of the attempts, at most sixteen seconds.
pub open spec fn spec_backoff_secs(attempt: u32) -> u64 {
    if attempt == 0 {
        1
    } else if attempt == 1 {
        2
    } else if attempt == 2 {
        4
    } else if attempt == 3 {
        8
    } else {
        16
    }
}

/// How long to wait before reconnecting, in seconds.
pub fn reconnect_backoff_secs(attempt: u32) -> (r: u64)
    ensures
        r == spec_backoff_secs(attempt),
        attempt < 4 ==> r == vstd::arithmetic::power2::pow2(attempt as nat),
        attempt >= 4 ==> r == 16,
{
    let e = if attempt < 4 {
        attempt
    } else {
        4
    };
    proof {
        vstd::arithmetic::power2::lemma2_to64();
    }
    let mut r: u64 = 1;
    let mut k: u32 = 0;
    while k < e
        invariant
            e <= 4,
            0 <= k <= e,
            r == spec_backoff_secs(k),
        decreases e - k,
    {
        r = r * 2;
        k = k + 1;
    }
    r
}

/// The first wait is one second, each further failed attempt doubles the wait until it
/// reaches sixteen seconds, and from then on it stays sixteen seconds.
pub proof fn lemma_backoff_doubles(a: u32)
    ensures
        spec_backoff_secs(0) == 1,
        a < 4 ==> spec_backoff_secs((a + 1) as u32) == 2 * spec_backoff_secs(a),
        a >= 4 ==> spec_backoff_secs(a) == 16,
{
}

/// Waiting grows with the failed attempts and never exceeds sixteen seconds.
pub proof fn lemma_backoff_monotone(a: u32, b: u32)
    requires
        a <= b,
    ensures
        spec_backoff_secs(a) <= spec_backoff_secs(b),
        1 <= spec_backoff_secs(b) <= 16,
{
}

/// The credentials to connect with, from the stored state and, when the state holds no
/// token, the token kept in the system keyring (where one could be read).
pub fn usable_credentials(state: StoredState, keyring_token: Option<String>) -> (r: Option<(String, u128, String)>)
    ensures
        ({
            let token = if state.token@.len() == 0 {
                match keyring_token {
                    Some(t) => t@,
                    None => state.token@,
                }
            } else {
                state.token@
            };
            if state.node_id == 0 || token.len() == 0 {
                r is None
            } else {
                r matches Some((host, id, tok)) && host@ == state.server_host@ && id == state.node_id
                    && tok@ == token
            }
        }),
{
    if state.node_id == 0 {
        return None;
    }
    let token = if state.token.unicode_len() == 0 {
        match keyring_token {
            Some(t) => t,
            None => state.token,
        }
    } else {
        state.token
    };
    if token.unicode_len() == 0 {
        return None;
    }
    Some((state.server_host, state.node_id, token))
}

/// A token read from a file or from standard input: the text without surrounding
/// whitespace.
pub fn entered_token(text: &str) -> (r: String)
    ensures
        r@ == trimmed(text@),
{
    String::from_str(trim(text))
}

/// The node id a login offers to keep: that of the stored state, when the state belongs
/// to the server logged in to and its node id is not nil.
pub fn existing_node_id(state: Option<StoredState>, server_host: &str) -> (r: Option<u128>)
    ensures
        r == (match state {
            Some(s) => if s.server_host@ == server_host@ && s.node_id != 0 {
                Some(s.node_id)
            } else {
                None
            },
            None => None,
        }),
{
    match state {
        Some(s) => {
            if eq_str(s.server_host.as_str(), server_host) && s.node_id != 0 {
                Some(s.node_id)
            } else {
                None
            }
        },
        None => None,
    }
}

/// Whether the server accepted a logout: its status is a success and the body's `success`
/// field is `true`. The local credentials are deleted either way.
pub fn logout_accepted(status_is_success: bool, success_field: Option<bool>) -> (r: bool)
    ensures
        r == (status_is_success && success_field == Some(true)),
{
    status_is_success && match success_field {
        Some(b) => b,
        None => false,
    }
}

} // verus!
