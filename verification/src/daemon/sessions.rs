//! The daemon's open tunnel sessions, keyed by connection and session id, and the commands
//! they are sent.
use crate::protocol::sftp::{SFTPDelete, SFTPDownloadChunk, SFTPDownloadStart, SFTPUploadChunk, SFTPUploadStart};
use crate::table::{has_key, keys_of_connection, keys_unique, without_keys, KeyedTable, SessionKey};
use crate::ids::id_after;
use vstd::prelude::*;

verus! {

/// A command for an SSH session.
#[derive(Clone, Debug, PartialEq, Eq)]
pub enum SSHCommand {
    /// Bytes typed by the web user, for the remote shell.
    Data(Vec<u8>),
    /// A new terminal size.
    Resize { cols: u32, rows: u32 },
}

/// A command for an SFTP session.
#[derive(Clone, Debug, PartialEq, Eq)]
pub enum SFTPCommand {
    List(String, Option<u32>),
    Download { path: String, filename: String, msg_id: Option<u32> },
    DownloadStart { download: SFTPDownloadStart, msg_id: Option<u32> },
    DownloadChunk { chunk: SFTPDownloadChunk, msg_id: Option<u32> },
    UploadStart { upload: SFTPUploadStart, msg_id: Option<u32> },
    Upload { chunk: SFTPUploadChunk, msg_id: Option<u32> },
    Delete { data: SFTPDelete, msg_id: Option<u32> },
}

/// The handle of an open tunnel session: `S` for SSH, `F` for SFTP.
#[derive(Debug)]
pub enum SessionHandle<S, F> {
    SSH(S),
    SFTP(F),
}

/// Why a command could not be delivered to a session.
#[derive(Clone, Copy, Debug, PartialEq, Eq, Structural)]
pub enum RouteError {
    /// No session is open under the connection and session id.
    NoSession(u128),
    /// The session is not an SFTP session.
    NoSftpTunnel(u128),
    /// The session is not an SSH session.
    NoSshTunnel(u128),
}

/// The SFTP session open under `(cid, sid)`, to send it a command.
pub fn sftp_session<S, F>(sessions: &KeyedTable<SessionHandle<S, F>>, cid: u128, sid: u32) -> (r: Result<&F, RouteError>)
    requires
        sessions.wf(),
    ensures
        !sessions@.contains_key((cid, sid)) ==> r == Err::<&F, RouteError>(RouteError::NoSession(cid)),
        sessions@.contains_key((cid, sid)) ==> match sessions@[(cid, sid)] {
            SessionHandle::SFTP(f) => r == Ok::<&F, RouteError>(&f),
            SessionHandle::SSH(_) => r == Err::<&F, RouteError>(RouteError::NoSftpTunnel(cid)),
        },
{
    match sessions.get(cid, sid) {
        None => Err(RouteError::NoSession(cid)),
        Some(SessionHandle::SFTP(f)) => Ok(f),
        Some(SessionHandle::SSH(_)) => Err(RouteError::NoSftpTunnel(cid)),
    }
}

/// The SSH session open under `(cid, sid)`, to send it a command.
pub fn ssh_session<S, F>(sessions: &KeyedTable<SessionHandle<S, F>>, cid: u128, sid: u32) -> (r: Result<&S, RouteError>)
    requires
        sessions.wf(),
    ensures
        !sessions@.contains_key((cid, sid)) ==> r == Err::<&S, RouteError>(RouteError::NoSession(cid)),
        sessions@.contains_key((cid, sid)) ==> match sessions@[(cid, sid)] {
            SessionHandle::SSH(s) => r == Ok::<&S, RouteError>(&s),
            SessionHandle::SFTP(_) => r == Err::<&S, RouteError>(RouteError::NoSshTunnel(cid)),
        },
{
    match sessions.get(cid, sid) {
        None => Err(RouteError::NoSession(cid)),
        Some(SessionHandle::SSH(s)) => Ok(s),
        Some(SessionHandle::SFTP(_)) => Err(RouteError::NoSshTunnel(cid)),
    }
}

/// Registers the session `sid` of connection `cid`, giving back the session it replaces,
/// which is to be shut down.
pub fn register_session<S, F>(
    sessions: &mut KeyedTable<SessionHandle<S, F>>,
    cid: u128,
    sid: u32,
    handle: SessionHandle<S, F>,
) -> (previous: Option<SessionHandle<S, F>>)
    requires
        old(sessions).wf(),
    ensures
        final(sessions).wf(),
        final(sessions)@ == old(sessions)@.insert((cid, sid), handle),
        match previous {
            Some(p) => old(sessions)@.contains_key((cid, sid)) && p == old(sessions)@[(cid, sid)],
            None => !old(sessions)@.contains_key((cid, sid)),
        },
{
    sessions.insert(cid, sid, handle)
}

/// Takes every session of connection `cid` out of the table, to be shut down.
pub fn close_tunnels_for_cid<S, F>(
    sessions: &mut KeyedTable<SessionHandle<S, F>>,
    cid: u128,
) -> (closed: Vec<(SessionKey, SessionHandle<S, F>)>)
    requires
        old(sessions).wf(),
    ensures
        final(sessions).wf(),
        final(sessions)@ == without_keys(old(sessions)@, keys_of_connection(old(sessions)@, cid)),
        forall|j: int|
            0 <= j < closed@.len() ==> old(sessions)@.contains_key(#[trigger] closed@[j].0)
                && old(sessions)@[closed@[j].0] == closed@[j].1 && closed@[j].0.0 == cid,
        forall|k: SessionKey|
            #![trigger keys_of_connection(old(sessions)@, cid).contains(k)]
            keys_of_connection(old(sessions)@, cid).contains(k) ==> has_key(closed@, k),
        keys_unique(closed@),
{
    sessions.remove_for_cid(cid)
}

/// After the sessions of a connection are closed, none of its sessions is left and every
/// other session is as it was.
pub proof fn lemma_close_leaves_other_connections<V>(before: Map<SessionKey, V>, cid: u128, k: SessionKey)
    ensures
        k.0 == cid ==> !without_keys(before, keys_of_connection(before, cid)).contains_key(k),
        k.0 != cid ==> (without_keys(before, keys_of_connection(before, cid)).contains_key(k)
            == before.contains_key(k)),
        k.0 != cid && before.contains_key(k) ==> without_keys(before, keys_of_connection(before, cid))[k]
            == before[k],
{
}

/// Whether every session id in `m` is below `bound`: the invariant between the session
/// table and the id counter that session ids are taken from.
pub open spec fn sids_below<V>(m: Map<SessionKey, V>, bound: u32) -> bool {
    forall|k: SessionKey| #[trigger] m.contains_key(k) ==> k.1 < bound
}

/// An empty table, beside a new counter (which stands at 1), keeps the invariant.
pub proof fn lemma_sids_below_empty<V>(bound: u32)
    ensures
        sids_below(Map::<SessionKey, V>::empty(), bound),
{
}

/// Where every session id in the table is below the counter, the id the counter hands out
/// next is in no key of the table, so registering it replaces no session; and, while the counter has not reached `u32::MAX`, the table with the new session
/// keeps the invariant with the counter moved on.
pub proof fn lemma_new_session_id_fresh<V>(sessions: Map<SessionKey, V>, next: u32, cid: u128, handle: V)
    requires
        sids_below(sessions, next),
    ensures
        forall|k: SessionKey| sessions.contains_key(k) ==> k.1 != next,
        !sessions.contains_key((cid, next)),
        next < u32::MAX ==> sids_below(sessions.insert((cid, next), handle), id_after(next, 1)),
{
}

/// Taking sessions out of the table keeps the invariant.
pub proof fn lemma_sids_below_after_removal<V>(sessions: Map<SessionKey, V>, keys: Set<SessionKey>, bound: u32)
    requires
        sids_below(sessions, bound),
    ensures
        sids_below(without_keys(sessions, keys), bound),
{
}

} // verus!
