//! The daemon's settings and the server endpoint it connects to.
use crate::env::Mode;
use crate::text::{decimal, eq_str, lowercase, push_decimal, to_lowercase};
use vstd::prelude::*;

verus! {

/// How the daemon authenticates the SSH sessions it opens.
#[derive(Clone, Copy, Debug, PartialEq, Eq, Structural)]
pub enum SSHAuthMethod {
    /// Username and password are both required.
    Password,
    /// Only a username is required.
    UsernameOnly,
}

/// The authentication method a setting names, compared after lowercasing.
pub open spec fn spec_auth_method_from(lower: Seq<char>) -> Option<SSHAuthMethod> {
    if lower == "password"@ {
        Some(SSHAuthMethod::Password)
    } else if lower == "none"@ {
        Some(SSHAuthMethod::UsernameOnly)
    } else {
        Option::None
    }
}

impl SSHAuthMethod {
    /// Reads an authentication method from a setting: `password` or `none`, in any letter
    /// case. Anything else gives the message `invalid authentication method: <setting>`.
    pub fn parse(s: &str) -> (r: Result<SSHAuthMethod, String>)
        ensures
            SSHAuthMethod::result_matches(r, lowercase(s@), s@),
    {
        let lower = to_lowercase(s);
        SSHAuthMethod::from_lowercased(lower.as_str(), s)
    }

    /// Whether `r` is what reading setting `s` gives, once its lowercase form is `lower`:
    /// the method `lower` names, or the message `invalid authentication method: <s>`.
    pub open spec fn result_matches(r: Result<SSHAuthMethod, String>, lower: Seq<char>, s: Seq<char>) -> bool {
        match spec_auth_method_from(lower) {
            Some(m) => r == Ok::<SSHAuthMethod, String>(m),
            Option::None => r matches Err(msg) && msg@ == "invalid authentication method: "@ + s,
        }
    }

    /// Reads setting `s` from its lowercase form `lower`.
    pub fn from_lowercased(lower: &str, s: &str) -> (r: Result<SSHAuthMethod, String>)
        ensures
            SSHAuthMethod::result_matches(r, lower@, s@),
    {
        if eq_str(lower, "password") {
            Ok(SSHAuthMethod::Password)
        } else if eq_str(lower, "none") {
            Ok(SSHAuthMethod::UsernameOnly)
        } else {
            Err(String::from_str("invalid authentication method: ").concat(s))
        }
    }
}

impl std::str::FromStr for SSHAuthMethod {
    type Err = String;

    fn from_str(s: &str) -> (r: Result<Self, Self::Err>)
        ensures
            SSHAuthMethod::result_matches(r, lowercase(s@), s@),
    {
        SSHAuthMethod::parse(s)
    }
}

/// The daemon's settings.
#[derive(Clone, Debug, PartialEq, Eq)]
pub struct Env {
    pub mode: Mode,
    pub host: String,
    pub port: u16,
    pub token: String,
    pub stats_refresh_interval: u16,
    pub ping_interval: u16,
    pub server_host: String,
    pub server_port: u16,
    pub ssh_host: String,
    pub ssh_port: u16,
    pub ssh_auth_mode: SSHAuthMethod,
    pub ssh_inactivity_secs: u64,
}

impl Env {
    /// How many seconds an SSH session may stay idle; a setting of 0 means no limit.
    pub fn get_ssh_inactivity_duration(&self) -> (r: Option<u64>)
        ensures
            r == (if self.ssh_inactivity_secs == 0 {
                Option::<u64>::None
            } else {
                Some(self.ssh_inactivity_secs)
            }),
    {
        match self.ssh_inactivity_secs {
            0 => Option::None,
            o => Some(o),
        }
    }
}

/// The daemon's version.
pub fn version() -> (r: &'static str)
    ensures
        r@ == "0.1.0"@,
{
    "0.1.0"
}

/// The WebSocket address of the server: `ws://` in development, `wss://` in production,
/// with the port left out when it is the scheme's default (80 and 443).
pub open spec fn spec_server_endpoint(mode: Mode, host: Seq<char>, port: u16) -> Seq<char> {
    let (scheme, default_port) = match mode {
        Mode::Development => ("ws://"@, 80u16),
        Mode::Production => ("wss://"@, 443u16),
    };
    if port == default_port {
        scheme + host
    } else {
        scheme + host + seq![':'] + decimal(port as nat)
    }
}

/// The server endpoint is `wss://host` in production and `ws://host` in development, with
/// `:port` after it unless the port is the scheme's default: 443 for `wss`, 80 for `ws`.
pub proof fn lemma_server_endpoint(mode: Mode, host: Seq<char>, port: u16)
    ensures
        mode == Mode::Production && port == 443 ==> spec_server_endpoint(mode, host, port) == "wss://"@
            + host,
        mode == Mode::Production && port != 443 ==> spec_server_endpoint(mode, host, port) == "wss://"@
            + host + seq![':'] + decimal(port as nat),
        mode == Mode::Development && port == 80 ==> spec_server_endpoint(mode, host, port) == "ws://"@
            + host,
        mode == Mode::Development && port != 80 ==> spec_server_endpoint(mode, host, port) == "ws://"@
            + host + seq![':'] + decimal(port as nat),
{
}

/// The WebSocket address of the server for a mode, host and port.
pub fn generate_server_endpoint(mode: Mode, server_host: String, server_port: u16) -> (r: String)
    ensures
        r@ == spec_server_endpoint(mode, server_host@, server_port),
        mode == Mode::Production && server_port == 443 ==> r@ == "wss://"@ + server_host@,
        mode == Mode::Production && server_port != 443 ==> r@ == "wss://"@ + server_host@ + seq![':']
            + decimal(server_port as nat),
        mode == Mode::Development && server_port == 80 ==> r@ == "ws://"@ + server_host@,
        mode == Mode::Development && server_port != 80 ==> r@ == "ws://"@ + server_host@ + seq![':']
            + decimal(server_port as nat),
{
    proof {
        lemma_server_endpoint(mode, server_host@, server_port);
    }
    let (scheme, default_port): (&str, u16) = match mode {
        Mode::Development => ("ws://", 80),
        Mode::Production => ("wss://", 443),
    };
    let mut out = String::from_str(scheme);
    out.append(server_host.as_str());
    if server_port != default_port {
        proof {
            reveal_strlit(":");
        }
        out.append(":");
        push_decimal(&mut out, server_port as u64);
    }
    out
}

/// The address of the server's node WebSocket: the server endpoint followed by
/// `/api/nodes/ws`.
pub fn node_ws_endpoint(mode: Mode, server_host: String, server_port: u16) -> (r: String)
    ensures
        r@ == spec_server_endpoint(mode, server_host@, server_port) + "/api/nodes/ws"@,
{
    generate_server_endpoint(mode, server_host, server_port).concat("/api/nodes/ws")
}

} // verus!
