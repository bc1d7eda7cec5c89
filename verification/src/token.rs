//! Personal access tokens of the form `pat_<token_id>.<secret>`.
use crate::text::{
    find_char, first_index_of, lemma_first_index_props, has_prefix, lemma_trim_end_fixed, lemma_trim_start_fixed,
    starts_with, trim, trim_end, trim_start, trimmed, unicode_white_space,
};
use vstd::prelude::*;

verus! {

/// Why a token was refused.
#[derive(Clone, Copy, Debug, PartialEq, Eq, Structural)]
pub enum TokenError {
    /// The token is empty or only whitespace.
    Required,
    /// The token does not start with `pat_`.
    InvalidFormat,
    /// There is no `.` between the token id and the secret.
    MissingPart,
}

/// The prefix that every personal access token carries.
pub open spec fn pat_prefix() -> Seq<char> {
    seq!['p', 'a', 't', '_']
}

/// What `extract_creds` gives for a token with characters `token`.
pub open spec fn spec_extract_creds(token: Seq<char>) -> Result<(Seq<char>, Seq<char>), TokenError> {
    let t = trimmed(token);
    if t.len() == 0 {
        Err(TokenError::Required)
    } else if !has_prefix(t, pat_prefix()) {
        Err(TokenError::InvalidFormat)
    } else {
        let body = t.subrange(4, t.len() as int);
        match first_index_of(body, '.') {
            None => Err(TokenError::MissingPart),
            Some(k) => Ok((body.subrange(0, k), body.subrange(k + 1, body.len() as int))),
        }
    }
}

/// The token text `pat_<token_id>.<secret>`.
pub open spec fn pat_token(token_id: Seq<char>, secret: Seq<char>) -> Seq<char> {
    pat_prefix() + token_id + seq!['.'] + secret
}

/// Extracts the token id and the secret from a personal access token
/// `pat_<token_id>.<secret>`, after trimming surrounding whitespace.
pub fn extract_creds(token: String) -> (r: Result<(String, String), TokenError>)
    ensures
        match (r, spec_extract_creds(token@)) {
            (Ok((id, secret)), Ok((sid, ssecret))) => id@ == sid && secret@ == ssecret,
            (Err(e), Err(se)) => e == se,
            _ => false,
        },
{
    let t = trim(token.as_str());
    let n = t.unicode_len();
    if n == 0 {
        return Err(TokenError::Required);
    }
    proof {
        reveal_strlit("pat_");
        assert("pat_"@ =~= pat_prefix());
    }
    if !starts_with(t, "pat_") {
        return Err(TokenError::InvalidFormat);
    }
    let body = t.substring_char(4, n);
    match find_char(body, '.') {
        None => Err(TokenError::MissingPart),
        Some(k) => {
            let body_len = body.unicode_len();
            let id = body.substring_char(0, k);
            let secret = body.substring_char(k + 1, body_len);
            Ok((String::from_str(id), String::from_str(secret)))
        },
    }
}

/// A token written as `pat_<token_id>.<secret>`, where the token id holds no `.` and the
/// secret does not end in whitespace, gives back exactly that token id and secret.
pub proof fn lemma_extract_creds_of_pat_token(token_id: Seq<char>, secret: Seq<char>)
    requires
        !token_id.contains('.'),
        secret.len() == 0 || !unicode_white_space(secret.last()),
    ensures
        spec_extract_creds(pat_token(token_id, secret)) == Ok::<(Seq<char>, Seq<char>), TokenError>((token_id, secret)),
{
    let s = pat_token(token_id, secret);
    assert(s[0] == 'p');
    lemma_trim_start_fixed(s);
    if secret.len() == 0 {
        assert(s.last() == '.');
    } else {
        assert(s.last() == secret.last());
    }
    lemma_trim_end_fixed(s);
    assert(trimmed(s) == s);
    assert(s.subrange(0, 4) =~= pat_prefix());
    let body = s.subrange(4, s.len() as int);
    assert(body =~= token_id + seq!['.'] + secret);
    let k = token_id.len() as int;
    assert(body[k] == '.');
    assert forall|j: int| 0 <= j < k implies body[j] != '.' by {
        assert(body[j] == token_id[j]);
        if token_id[j] == '.' {
            assert(token_id.contains('.'));
        }
    }
    assert(exists|k: int| 0 <= k < body.len() && body[k] == '.');
    let m = choose|m: int|
        0 <= m < body.len() && body[m] == '.' && forall|j: int| 0 <= j < m ==> body[j] != '.';
    assert(exists|m: int|
        0 <= m < body.len() && body[m] == '.' && forall|j: int| 0 <= j < m ==> body[j] != '.') by {
        assert(0 <= k < body.len() && body[k] == '.' && forall|j: int|
            0 <= j < k ==> body[j] != '.');
    }
    if m < k {
        assert(body[m] != '.');
    }
    if m > k {
        assert(body[k] != '.');
    }
    assert(first_index_of(body, '.') == Some(k));
    assert(body.subrange(0, k) =~= token_id);
    assert(body.subrange(k + 1, body.len() as int) =~= secret);
}

/// Whatever `extract_creds` accepts is `pat_<token_id>.<secret>` once trimmed, with no `.`
/// in the token id.
pub proof fn lemma_extract_creds_shape(token: Seq<char>)
    requires
        spec_extract_creds(token) is Ok,
    ensures
        ({
            let (token_id, secret) = spec_extract_creds(token)->Ok_0;
            &&& trimmed(token) == pat_token(token_id, secret)
            &&& !token_id.contains('.')
        }),
{
    let t = trimmed(token);
    let body = t.subrange(4, t.len() as int);
    lemma_first_index_props(body, '.');
    let k = first_index_of(body, '.')->Some_0;
    let (token_id, secret) = spec_extract_creds(token)->Ok_0;
    assert(t =~= pat_token(token_id, secret)) by {
        assert(t.subrange(0, 4) == pat_prefix());
        assert(body =~= token_id + seq!['.'] + secret);
    }
    assert forall|j: int| 0 <= j < token_id.len() implies token_id[j] != '.' by {
        assert(token_id[j] == body[j]);
    }
}

} // verus!
