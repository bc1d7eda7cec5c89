//! How the agent authenticates the SSH sessions it opens.
use crate::text::{eq_str, lowercase, to_lowercase};
use vstd::prelude::*;

verus! {

/// How the agent authenticates SSH sessions.
#[derive(Clone, Copy, Debug, PartialEq, Eq, Structural)]
pub enum SSHAuthMethod {
    /// Username and password are both required.
    Password,
    /// Only a username is required.
    UsernameOnly,
}

/// The authentication method a setting names, compared after lowercasing.
pub open spec fn spec_agent_auth_method_from(lower: Seq<char>) -> Option<SSHAuthMethod> {
    if lower == "password"@ {
        Some(SSHAuthMethod::Password)
    } else if lower == "none"@ {
        Some(SSHAuthMethod::UsernameOnly)
    } else {
        Option::None
    }
}

impl SSHAuthMethod {
    /// Reads an authentication method from a setting: `password` or `none`, in any letter
    /// case. Anything else gives the message `invalid authentication method: <setting>`.
    pub fn parse(s: &str) -> (r: Result<SSHAuthMethod, String>)
        ensures
            SSHAuthMethod::result_matches(r, lowercase(s@), s@),
    {
        let lower = to_lowercase(s);
        SSHAuthMethod::from_lowercased(lower.as_str(), s)
    }

    /// Whether `r` is what reading setting `s` gives, once its lowercase form is `lower`:
    /// the method `lower` names, or the message `invalid authentication method: <s>`.
    pub open spec fn result_matches(r: Result<SSHAuthMethod, String>, lower: Seq<char>, s: Seq<char>) -> bool {
        match spec_agent_auth_method_from(lower) {
            Some(m) => r == Ok::<SSHAuthMethod, String>(m),
            Option::None => r matches Err(msg) && msg@ == "invalid authentication method: "@ + s,
        }
    }

    /// Reads setting `s` from its lowercase form `lower`.
    pub fn from_lowercased(lower: &str, s: &str) -> (r: Result<SSHAuthMethod, String>)
        ensures
            SSHAuthMethod::result_matches(r, lower@, s@),
    {
        if eq_str(lower, "password") {
            Ok(SSHAuthMethod::Password)
        } else if eq_str(lower, "none") {
            Ok(SSHAuthMethod::UsernameOnly)
        } else {
            Err(String::from_str("invalid authentication method: ").concat(s))
        }
    }

    /// The method's name, as it is displayed: `Password` or `None`.
    pub fn name(&self) -> (r: &'static str)
        ensures
            r@ == (match *self {
                SSHAuthMethod::Password => "Password"@,
                SSHAuthMethod::UsernameOnly => "None"@,
            }),
    {
        match self {
            SSHAuthMethod::Password => "Password",
            SSHAuthMethod::UsernameOnly => "None",
        }
    }
}

impl std::str::FromStr for SSHAuthMethod {
    type Err = String;

    fn from_str(s: &str) -> (r: Result<Self, Self::Err>)
        ensures
            SSHAuthMethod::result_matches(r, lowercase(s@), s@),
    {
        SSHAuthMethod::parse(s)
    }
}

} // verus!
