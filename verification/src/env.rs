//! The run mode shared by the daemon, the agent and the relay.
use crate::text::{ascii_lower, ascii_lowered, eq_str, is_ascii_text, lowercase, to_lowercase};
use vstd::prelude::*;

verus! {

/// Whether a program runs for development or in production.
#[derive(Clone, Copy, Debug, PartialEq, Eq, Structural)]
pub enum Mode {
    Development,
    Production,
}

/// The mode a setting names, compared after lowercasing.
pub open spec fn spec_mode_from(lower: Seq<char>) -> Option<Mode> {
    if lower == "development"@ || lower == "dev"@ {
        Some(Mode::Development)
    } else if lower == "production"@ || lower == "prod"@ {
        Some(Mode::Production)
    } else {
        None
    }
}

impl Mode {
    /// Reads a mode from a setting: `development`/`dev` or `production`/`prod`, in any
    /// letter case. Anything else gives the message `invalid mode: <setting>`.
    pub fn parse(s: &str) -> (r: Result<Mode, String>)
        ensures
            Mode::result_matches(r, lowercase(s@), s@),
            is_ascii_text(s@) ==> Mode::result_matches(r, ascii_lowered(s@), s@),
    {
        let lower = to_lowercase(s);
        Mode::from_lowercased(lower.as_str(), s)
    }

    /// Whether `r` is what reading setting `s` gives, once its lowercase form is `lower`:
    /// the mode `lower` names, or the message `invalid mode: <s>`.
    pub open spec fn result_matches(r: Result<Mode, String>, lower: Seq<char>, s: Seq<char>) -> bool {
        match spec_mode_from(lower) {
            Some(m) => r == Ok::<Mode, String>(m),
            None => r matches Err(msg) && msg@ == "invalid mode: "@ + s,
        }
    }

    /// Reads setting `s` from its lowercase form `lower`.
    pub fn from_lowercased(lower: &str, s: &str) -> (r: Result<Mode, String>)
        ensures
            Mode::result_matches(r, lower@, s@),
    {
        if eq_str(lower, "development") || eq_str(lower, "dev") {
            Ok(Mode::Development)
        } else if eq_str(lower, "production") || eq_str(lower, "prod") {
            Ok(Mode::Production)
        } else {
            let msg = String::from_str("invalid mode: ").concat(s);
            Err(msg)
        }
    }

    /// The mode's name, as it is displayed.
    pub fn name(&self) -> (r: &'static str)
        ensures
            r@ == spec_mode_name(*self),
    {
        match self {
            Mode::Development => "development",
            Mode::Production => "production",
        }
    }
}

/// The name a mode is displayed by.
pub open spec fn spec_mode_name(m: Mode) -> Seq<char> {
    match m {
        Mode::Development => "development"@,
        Mode::Production => "production"@,
    }
}

/// A mode's name reads back as that mode, and so does any ASCII setting that spells the
/// name in other letter case (such as the name in capitals): reading such a setting gives
/// exactly `Ok(m)`.
pub proof fn lemma_mode_name_roundtrip(m: Mode, s: Seq<char>, r: Result<Mode, String>)
    requires
        is_ascii_text(s),
        ascii_lowered(s) == spec_mode_name(m),
        Mode::result_matches(r, ascii_lowered(s), s),
    ensures
        r == Ok::<Mode, String>(m),
        is_ascii_text(spec_mode_name(m)),
        ascii_lowered(spec_mode_name(m)) == spec_mode_name(m),
{
    reveal_strlit("development");
    reveal_strlit("dev");
    reveal_strlit("production");
    reveal_strlit("prod");
    let n = spec_mode_name(m);
    assert(ascii_lowered(n) =~= n);
    assert("development"@.len() == 11 && "dev"@.len() == 3);
    assert("production"@.len() == 10 && "prod"@.len() == 4);
    assert("development"@ != "dev"@);
    assert("production"@ != "prod"@);
    assert("development"@ != "production"@);
    assert("development"@ != "prod"@);
    assert("dev"@ != "production"@);
}

impl std::str::FromStr for Mode {
    type Err = String;

    fn from_str(s: &str) -> (r: Result<Self, Self::Err>)
        ensures
            Mode::result_matches(r, lowercase(s@), s@),
            is_ascii_text(s@) ==> Mode::result_matches(r, ascii_lowered(s@), s@),
    {
        Mode::parse(s)
    }
}

} // verus!
