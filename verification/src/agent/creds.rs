//! The agent's stored credentials: which node it is, its access token, and the server they
//! belong to. Reading and writing the state file is left to the caller; these functions
//! decide what is written and what a read state means.
use crate::token::{extract_creds, spec_extract_creds, TokenError};
use crate::text::eq_str;
use vstd::prelude::*;

verus! {

/// `Uuid::parse_str`: the 128-bit value of the UUID that `s` spells, where it spells one.
pub uninterp spec fn uuid_parse(s: Seq<char>) -> Option<u128>;

/// `uuid::Uuid::parse_str`: the UUID `s` spells (simple, hyphenated, braced or URN form), as
/// its 128-bit value, or the parser's error text. Which strings are accepted is named by
/// `uuid_parse` and not spelled out; the error text is left unsaid.
#[verifier::external_body]
fn parse_uuid(s: &str) -> (r: Result<u128, String>)
    ensures
        match r {
            Ok(v) => uuid_parse(s@) == Some(v),
            Err(_) => uuid_parse(s@) is None,
        },
{
    uuid::Uuid::parse_str(s).map(|u| u.as_u128()).map_err(|e| e.to_string())
}

/// The state the agent keeps between runs. The node id is a UUID, as its 128-bit value; 0
/// is the nil UUID, which stands for no node.
#[derive(Clone, Debug, PartialEq, Eq)]
pub struct StoredState {
    pub node_id: u128,
    pub token: String,
    pub server_host: String,
}

impl StoredState {
    /// The state of an agent that never logged in.
    pub fn empty() -> (r: StoredState)
        ensures
            r.node_id == 0,
            r.token@ == Seq::<char>::empty(),
            r.server_host@ == Seq::<char>::empty(),
    {
        StoredState { node_id: 0, token: String::new(), server_host: String::new() }
    }
}

/// Why stored credentials could not be saved or used.
#[derive(Clone, Debug, PartialEq, Eq)]
pub enum CredsError {
    /// The node id is not a UUID: the text given and the parser's message.
    InvalidNodeId { node_id: String, reason: String },
    /// The credentials belong to another server.
    ServerMismatch { stored: String, requested: String },
    /// The stored node id is the nil UUID.
    NilNodeId,
    /// The stored token is empty.
    EmptyToken,
    /// The stored token is not a well-formed access token.
    InvalidToken(TokenError),
}

/// Why the state file could not be read or removed.
#[derive(Clone, Copy, Debug, PartialEq, Eq, Structural)]
pub enum FsError {
    NotFound,
    Other,
}

/// How reading the state file went.
#[derive(Clone, Debug, PartialEq, Eq)]
pub enum StateRead {
    /// The file was read and holds a state.
    Parsed(StoredState),
    /// The file was read but does not hold a state.
    Unparsable,
    /// The file could not be read.
    Failed(FsError),
}

/// Where the agent keeps its credentials for one server.
#[derive(Clone, Debug, PartialEq, Eq)]
pub struct TokenStore {
    service: String,
    state_path: String,
}

/// Whether credentials kept for `server_host` may be used for `service`: they are kept for
/// no server in particular, or for that one.
pub open spec fn server_matches(service: Seq<char>, server_host: Seq<char>) -> bool {
    server_host.len() == 0 || server_host == service
}

/// What using credentials of the right server gives: the node id and token, or why they
/// cannot be used.
pub open spec fn credential_check(state: StoredState) -> Result<(u128, Seq<char>), CredsError> {
    if state.node_id == 0 {
        Err(CredsError::NilNodeId)
    } else if state.token@.len() == 0 {
        Err(CredsError::EmptyToken)
    } else {
        match spec_extract_creds(state.token@) {
            Err(e) => Err(CredsError::InvalidToken(e)),
            Ok(_) => Ok((state.node_id, state.token@)),
        }
    }
}

impl TokenStore {
    /// A store for the credentials of server `service`, kept in the file `state_path`.
    pub fn new(service: String, state_path: String) -> (r: TokenStore)
        ensures
            r.service() == service@,
            r.state_path() == state_path@,
    {
        TokenStore { service, state_path }
    }

    /// The server the credentials are for.
    pub closed spec fn service(&self) -> Seq<char> {
        self.service@
    }

    /// The file the credentials are kept in.
    pub closed spec fn state_path(&self) -> Seq<char> {
        self.state_path@
    }

    /// The file the credentials are kept in.
    pub fn get_state_path(&self) -> (r: &str)
        ensures
            r@ == self.state_path(),
    {
        self.state_path.as_str()
    }

    /// The state to write for node `node_id` (a UUID) and `token`, tied to this store's
    /// server.
    pub fn save(&self, node_id: &str, token: &str) -> (r: Result<StoredState, CredsError>)
        ensures
            match uuid_parse(node_id@) {
                Some(v) => r matches Ok(s) && s.node_id == v && s.token@ == token@ && s.server_host@
                    == self.service(),
                None => r matches Err(CredsError::InvalidNodeId { node_id: n, .. }) && n@ == node_id@,
            },
    {
        let parsed = parse_uuid(node_id);
        self.state_for(node_id, parsed, token)
    }

    /// The state to write for node `node_id`, given what parsing it as a UUID gave.
    pub fn state_for(&self, node_id: &str, parsed: Result<u128, String>, token: &str) -> (r: Result<StoredState, CredsError>)
        ensures
            match parsed {
                Ok(v) => r matches Ok(s) && s.node_id == v && s.token@ == token@ && s.server_host@
                    == self.service(),
                Err(reason) => r matches Err(CredsError::InvalidNodeId { node_id: n, reason: why })
                    && n@ == node_id@ && why == reason,
            },
    {
        match parsed {
            Ok(v) => Ok(StoredState { node_id: v, token: String::from_str(token), server_host: self.service.clone() }),
            Err(reason) => Err(CredsError::InvalidNodeId { node_id: String::from_str(node_id), reason }),
        }
    }

    /// The node id and token of the stored state, or why they cannot be used: the state is
    /// for another server, or has no node id, no token, or a malformed token. No state
    /// counts as the state of an agent that never logged in.
    pub fn load(&self, state: Option<StoredState>) -> (r: Result<(u128, String), CredsError>)
        ensures
            state is None ==> r == Err::<(u128, String), CredsError>(CredsError::NilNodeId),
            state matches Some(s) ==> if !server_matches(self.service(), s.server_host@) {
                r matches Err(CredsError::ServerMismatch { stored, requested }) && stored@
                    == s.server_host@ && requested@ == self.service()
            } else {
                match credential_check(s) {
                    Ok((id, tok)) => r matches Ok((rid, rtok)) && rid == id && rtok@ == tok,
                    Err(e) => r == Err::<(u128, String), CredsError>(e),
                }
            },
    {
        let state = match state {
            Some(s) => s,
            None => StoredState::empty(),
        };
        if state.server_host.unicode_len() != 0 && !eq_str(state.server_host.as_str(), self.service.as_str()) {
            return Err(CredsError::ServerMismatch { stored: state.server_host, requested: self.service.clone() });
        }
        if state.node_id == 0 {
            return Err(CredsError::NilNodeId);
        }
        if state.token.unicode_len() == 0 {
            return Err(CredsError::EmptyToken);
        }
        match extract_creds(state.token.clone()) {
            Err(e) => Err(CredsError::InvalidToken(e)),
            Ok(_) => Ok((state.node_id, state.token)),
        }
    }

    /// The stored state after reading the state file: a file that is missing or does not
    /// hold a state gives no state; any other read failure is an error.
    pub fn load_state_from_file(&self, read: StateRead) -> (r: Result<Option<StoredState>, FsError>)
        ensures
            match read {
                StateRead::Parsed(s) => r == Ok::<Option<StoredState>, FsError>(Some(s)),
                StateRead::Unparsable => r == Ok::<Option<StoredState>, FsError>(None),
                StateRead::Failed(FsError::NotFound) => r == Ok::<Option<StoredState>, FsError>(None),
                StateRead::Failed(FsError::Other) => r == Err::<Option<StoredState>, FsError>(FsError::Other),
            },
    {
        match read {
            StateRead::Parsed(s) => Ok(Some(s)),
            StateRead::Unparsable => Ok(None),
            StateRead::Failed(FsError::NotFound) => Ok(None),
            StateRead::Failed(FsError::Other) => Err(FsError::Other),
        }
    }

    /// The outcome of deleting the credentials, given how removing the state file went: a
    /// file that is already gone counts as deleted.
    pub fn delete(&self, removal: Result<(), FsError>) -> (r: Result<(), FsError>)
        ensures
            r == (match removal {
                Ok(()) => Ok::<(), FsError>(()),
                Err(FsError::NotFound) => Ok::<(), FsError>(()),
                Err(FsError::Other) => Err::<(), FsError>(FsError::Other),
            }),
    {
        match removal {
            Ok(()) => Ok(()),
            Err(FsError::NotFound) => Ok(()),
            Err(FsError::Other) => Err(FsError::Other),
        }
    }
}

/// Credentials saved through a store are given back by the same store: the node id and the
/// token, when the node id is not nil and the token is a well-formed access token.
pub proof fn lemma_save_then_load(service: Seq<char>, state: StoredState, node_id: u128, token: Seq<char>)
    requires
        state.node_id == node_id,
        state.token@ == token,
        state.server_host@ == service,
        node_id != 0,
        spec_extract_creds(token) is Ok,
    ensures
        server_matches(service, state.server_host@),
        credential_check(state) == Ok::<(u128, Seq<char>), CredsError>((node_id, token)),
{
    let t = crate::text::trimmed(token);
    if token.len() == 0 {
        assert(crate::text::trim_start(token) == token);
        assert(t.len() == 0);
    }
}

} // verus!
