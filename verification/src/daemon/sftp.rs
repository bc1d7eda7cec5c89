//! SFTP sessions of the daemon: remote paths, chunking of transfers, and the tables of
//! transfers in progress.
use crate::protocol::sftp::{SFTPFileChunk, SFTPListItem, SFTPListItemAttributes, SFTPListItemKind, SFTPUploadChunk};
use crate::table::{has_key, keys_of_connection, keys_unique, marked_keys, without_keys, KeyedTable, SessionKey};
use crate::text::{ends_with, ends_with_char};
use vstd::prelude::*;

verus! {

/// A piece between separators as a component: none for an empty piece or `.`.
pub open spec fn path_piece(piece: Seq<char>) -> Seq<Seq<char>> {
    if piece.len() == 0 || piece == seq!['.'] {
        Seq::empty()
    } else {
        seq![piece]
    }
}

/// The components of `s` after a piece `cur` already read: the `/`-separated pieces, with
/// repeated and trailing separators and `.` pieces normalized away.
pub open spec fn path_pieces(s: Seq<char>, cur: Seq<char>) -> Seq<Seq<char>>
    decreases s.len(),
{
    if s.len() == 0 {
        path_piece(cur)
    } else if s[0] == '/' {
        path_piece(cur) + path_pieces(s.drop_first(), Seq::empty())
    } else {
        path_pieces(s.drop_first(), cur.push(s[0]))
    }
}

/// The texts of the components of the Unix path `p`, in order, as `std::path::Path::components`
/// documents them: `/` for a leading root, `.` for a leading current directory, then each
/// piece between separators, with repeated separators, a trailing separator and other `.`
/// pieces normalized away (`..` is kept).
pub open spec fn path_component_texts(p: Seq<char>) -> Seq<Seq<char>> {
    let lead = if p.len() > 0 && p[0] == '/' {
        seq![seq!['/']]
    } else if p.len() > 0 && p[0] == '.' && (p.len() == 1 || p[1] == '/') {
        seq![seq!['.']]
    } else {
        Seq::empty()
    };
    lead + path_pieces(p, Seq::empty())
}

/// `std::path::Path::components`: the text of each component of `p` (a normal name, `/`,
/// `.` or `..`), in order, as `path_component_texts` spells out its documented splitting.
#[verifier::external_body]
fn path_components(p: &str) -> (r: Vec<String>)
    ensures
        r@.len() == path_component_texts(p@).len(),
        forall|i: int| 0 <= i < r@.len() ==> (#[trigger] r@[i])@ == path_component_texts(p@)[i],
{
    std::path::Path::new(p).components().map(|c| c.as_os_str().to_string_lossy().into_owned()).collect()
}

/// The text of the last component of `p`, where it has a component.
pub open spec fn path_last_component(p: Seq<char>) -> Option<Seq<char>> {
    let cs = path_component_texts(p);
    if cs.len() > 0 {
        Some(cs.last())
    } else {
        None
    }
}

/// The text of the last component of the path `p`, where it has one.
fn last_path_component(p: &str) -> (r: Option<String>)
    ensures
        match r {
            Some(c) => path_last_component(p@) == Some(c@),
            None => path_last_component(p@) is None,
        },
{
    let mut cs = path_components(p);
    let n = cs.len();
    if n == 0 {
        None
    } else {
        let last = cs.swap_remove(n - 1);
        Some(last)
    }
}

/// Whether `c` is a plain name: not empty, without `/`, and not `.`.
pub open spec fn plain_name(c: Seq<char>) -> bool {
    c.len() > 0 && !c.contains('/') && c != seq!['.']
}

/// Characters without a separator read as one piece.
proof fn lemma_pieces_without_separator(c: Seq<char>, cur: Seq<char>)
    requires
        !c.contains('/'),
    ensures
        path_pieces(c, cur) == path_piece(cur + c),
    decreases c.len(),
{
    if c.len() == 0 {
        assert(cur + c =~= cur);
    } else {
        assert(c[0] != '/') by {
            assert(c.contains(c[0]));
        }
        assert forall|x: char| c.drop_first().contains(x) implies c.contains(x) by {
            let i = choose|i: int| 0 <= i < c.drop_first().len() && c.drop_first()[i] == x;
            assert(c[i + 1] == x);
        }
        lemma_pieces_without_separator(c.drop_first(), cur.push(c[0]));
        assert(cur.push(c[0]) + c.drop_first() =~= cur + c);
    }
}

/// Whatever comes before it, a path ending in a separator and then a plain name has that
/// name as its last piece.
proof fn lemma_pieces_end_in_name(x: Seq<char>, c: Seq<char>, cur: Seq<char>)
    requires
        plain_name(c),
    ensures
        path_pieces(x + seq!['/'] + c, cur).len() > 0,
        path_pieces(x + seq!['/'] + c, cur).last() == c,
    decreases x.len(),
{
    let s = x + seq!['/'] + c;
    if x.len() == 0 {
        assert(s[0] == '/');
        assert(s.drop_first() =~= c);
        lemma_pieces_without_separator(c, Seq::empty());
        assert(Seq::<char>::empty() + c =~= c);
    } else {
        assert(s[0] == x[0]);
        assert(s.drop_first() =~= x.drop_first() + seq!['/'] + c);
        if x[0] == '/' {
            lemma_pieces_end_in_name(x.drop_first(), c, Seq::empty());
        } else {
            lemma_pieces_end_in_name(x.drop_first(), c, cur.push(x[0]));
        }
    }
}

/// The last component of a path that ends in a separator and a plain name is that name,
/// whatever precedes it.
pub proof fn lemma_last_component(d: Seq<char>, c: Seq<char>)
    requires
        plain_name(c),
    ensures
        path_last_component(d + seq!['/'] + c) == Some(c),
{
    lemma_pieces_end_in_name(d, c, Seq::empty());
    let p = d + seq!['/'] + c;
    let cs = path_component_texts(p);
    let pieces = path_pieces(p, Seq::empty());
    assert(cs.last() == pieces.last());
}

/// The only component of the root `/` is `/`.
pub proof fn lemma_root_component()
    ensures
        path_component_texts(seq!['/']) == seq![seq!['/']],
        path_last_component(seq!['/']) == Some(seq!['/']),
{
    let root = seq!['/'];
    assert(root.drop_first() =~= Seq::<char>::empty());
    assert(path_pieces(Seq::<char>::empty(), Seq::empty()) == path_piece(Seq::<char>::empty()));
    assert(path_piece(Seq::<char>::empty()) =~= Seq::<Seq<char>>::empty());
    assert(path_pieces(root, Seq::empty()) == path_piece(Seq::<char>::empty()) + path_pieces(
        Seq::<char>::empty(),
        Seq::empty(),
    ));
    assert(path_pieces(root, Seq::empty()) =~= Seq::<Seq<char>>::empty());
    assert(path_component_texts(root) =~= seq![seq!['/']]);
}

/// An entry read from a remote directory.
#[derive(Clone, Debug, PartialEq, Eq)]
pub struct DirEntryInfo {
    pub name: String,
    pub is_dir: bool,
    pub size: Option<u64>,
}

/// The listing of a directory requested as `path`, whose canonical path is `abs_path`:
/// named after the last component of the canonical path (or the requested path when it has
/// none), a folder, with one entry per directory entry. Sizes that are not known count as 0.
pub fn build_listing(path: &str, abs_path: String, size: Option<u64>, entries: Vec<DirEntryInfo>) -> (r: SFTPListItem)
    ensures
        r.name@ == (match path_last_component(abs_path@) {
            Some(c) => c,
            None => path@,
        }),
        forall|d: Seq<char>, c: Seq<char>|
            plain_name(c) && abs_path@ == d + seq!['/'] + c ==> r.name@ == c,
        abs_path@ == seq!['/'] ==> r.name@ == seq!['/'],
        r.path@ == abs_path@,
        r.kind == SFTPListItemKind::Folder,
        r.attributes.size == (match size {
            Some(s) => s,
            None => 0,
        }),
        r.items@.len() == entries@.len(),
        forall|i: int|
            0 <= i < entries@.len() ==> {
                &&& (#[trigger] r.items@[i]).name@ == entries@[i].name@
                &&& r.items@[i].path@ == abs_path@
                &&& r.items@[i].items@.len() == 0
                &&& r.items@[i].kind == (if entries@[i].is_dir {
                    SFTPListItemKind::Folder
                } else {
                    SFTPListItemKind::File
                })
                &&& r.items@[i].attributes.size == (match entries@[i].size {
                    Some(s) => s,
                    None => 0,
                })
            },
{
    let name = match last_path_component(abs_path.as_str()) {
        Some(c) => c,
        None => String::from_str(path),
    };
    proof {
        assert forall|d: Seq<char>, c: Seq<char>|
            plain_name(c) && abs_path@ == d + seq!['/'] + c implies name@ == c by {
            lemma_last_component(d, c);
        }
        if abs_path@ == seq!['/'] {
            lemma_root_component();
        }
    }
    let mut items: Vec<SFTPListItem> = Vec::new();
    let mut i: usize = 0;
    while i < entries.len()
        invariant
            0 <= i <= entries@.len(),
            items@.len() == i,
            forall|j: int|
                0 <= j < i ==> {
                    &&& (#[trigger] items@[j]).name@ == entries@[j].name@
                    &&& items@[j].path@ == abs_path@
                    &&& items@[j].items@.len() == 0
                    &&& items@[j].kind == (if entries@[j].is_dir {
                        SFTPListItemKind::Folder
                    } else {
                        SFTPListItemKind::File
                    })
                    &&& items@[j].attributes.size == (match entries@[j].size {
                        Some(s) => s,
                        None => 0,
                    })
                },
        decreases entries@.len() - i,
    {
        let e = &entries[i];
        let kind = if e.is_dir {
            SFTPListItemKind::Folder
        } else {
            SFTPListItemKind::File
        };
        let entry_size = match e.size {
            Some(s) => s,
            None => 0,
        };
        items.push(SFTPListItem {
            name: e.name.clone(),
            path: abs_path.clone(),
            kind,
            items: Vec::new(),
            attributes: SFTPListItemAttributes { size: entry_size },
        });
        i = i + 1;
    }
    let root_size = match size {
        Some(s) => s,
        None => 0,
    };
    SFTPListItem {
        name,
        path: abs_path,
        kind: SFTPListItemKind::Folder,
        items,
        attributes: SFTPListItemAttributes { size: root_size },
    }
}

/// Size of a transfer chunk in bytes.
pub const CHUNK_SIZE: usize = 65536;

/// How long a transfer may go without progress before it is abandoned, in nanoseconds.
pub const TRANSFER_TIMEOUT_NANOS: i128 = 900_000_000_000;

/// Credentials for the SFTP server.
#[derive(Clone, Debug, PartialEq, Eq)]
pub enum SFTPConfigAuth {
    UsernamePassword(String, String),
}

/// Where the SFTP server is and how to log in.
#[derive(Clone, Debug, PartialEq, Eq)]
pub struct SFTPConfig {
    pub host: String,
    pub port: u16,
    pub credentials: SFTPConfigAuth,
}

/// A connection to the SFTP server, not yet opened.
#[derive(Clone, Debug)]
pub struct SFTPConnection {
    config: SFTPConfig,
}

impl SFTPConnection {
    /// A connection that will use `config`.
    pub fn new(config: SFTPConfig) -> (r: SFTPConnection)
        ensures
            r.config() == config,
    {
        SFTPConnection { config }
    }

    /// The settings the connection uses.
    pub closed spec fn config(&self) -> SFTPConfig {
        self.config
    }

    /// The settings the connection uses.
    pub fn get_config(&self) -> (r: &SFTPConfig)
        ensures
            *r == self.config(),
    {
        &self.config
    }
}

/// The SSH client side of an SFTP connection.
#[derive(Clone, Copy, Debug, PartialEq, Eq, Structural)]
pub struct SFTPClient {}

impl SFTPClient {
    /// Whether the server's host key is accepted: every key is.
    pub fn check_server_key(&self) -> (r: bool)
        ensures
            r,
    {
        true
    }
}

/// `filename` in the remote directory `dir`: joined with `/` unless `dir` ends with one.
pub open spec fn spec_join_remote_path(dir: Seq<char>, filename: Seq<char>) -> Seq<char> {
    if ends_with_char(dir, '/') {
        dir + filename
    } else {
        dir + seq!['/'] + filename
    }
}

/// The remote path of `filename` in directory `dir`.
pub fn join_remote_path(dir: &str, filename: &str) -> (r: String)
    ensures
        r@ == spec_join_remote_path(dir@, filename@),
{
    let mut out = String::from_str(dir);
    if !ends_with(dir, '/') {
        proof {
            reveal_strlit("/");
        }
        out.append("/");
    }
    out.append(filename);
    out
}

/// The path an upload is written to until it is complete: the file's path with `.tmp`.
pub fn upload_temp_path(file_path: &str) -> (r: String)
    ensures
        r@ == file_path@ + ".tmp"@,
{
    String::from_str(file_path).concat(".tmp")
}

/// `s` without its trailing `/` characters.
pub open spec fn trim_trailing_slashes(s: Seq<char>) -> Seq<char>
    decreases s.len(),
{
    if s.len() > 0 && s.last() == '/' {
        trim_trailing_slashes(s.drop_last())
    } else {
        s
    }
}

/// Dropping trailing `/` characters one at a time reaches the same result.
proof fn lemma_trim_trailing_slashes_skip(s: Seq<char>, j: int)
    requires
        0 <= j <= s.len(),
        forall|k: int| j <= k < s.len() ==> #[trigger] s[k] == '/',
    ensures
        trim_trailing_slashes(s) == trim_trailing_slashes(s.subrange(0, j)),
    decreases s.len() - j,
{
    if j < s.len() {
        assert(s.drop_last().subrange(0, j) =~= s.subrange(0, j));
        assert forall|k: int| j <= k < s.drop_last().len() implies #[trigger] s.drop_last()[k] == '/' by {
            assert(s.drop_last()[k] == s[k]);
        }
        lemma_trim_trailing_slashes_skip(s.drop_last(), j);
    } else {
        assert(s.subrange(0, j) =~= s);
    }
}

/// The path of the file a delete request names: the directory without trailing `/`, then
/// `/` and the file name.
pub open spec fn spec_delete_target_path(path: Seq<char>, filename: Seq<char>) -> Seq<char> {
    trim_trailing_slashes(path) + seq!['/'] + filename
}

/// The remote path of the file a delete request names.
pub fn delete_target_path(path: &str, filename: &str) -> (r: String)
    ensures
        r@ == spec_delete_target_path(path@, filename@),
{
    let n = path.unicode_len();
    let mut j: usize = n;
    while j > 0 && path.get_char(j - 1) == '/'
        invariant
            n == path@.len(),
            0 <= j <= n,
            forall|k: int| j <= k < n ==> #[trigger] path@[k] == '/',
        decreases j,
    {
        j = j - 1;
    }
    proof {
        lemma_trim_trailing_slashes_skip(path@, j as int);
        if j > 0 {
            assert(path@.subrange(0, j as int).last() == path@[j - 1]);
        }
    }
    let dir = path.substring_char(0, j);
    let mut out = String::from_str(dir);
    proof {
        reveal_strlit("/");
    }
    out.append("/");
    out.append(filename);
    out
}

/// How many chunks a file of `total_size` bytes is sent in: the size divided by the chunk
/// size, rounded up, and at most `u32::MAX`.
pub open spec fn spec_chunk_count(total_size: nat) -> nat {
    let n = (total_size + 65535nat) / 65536nat;
    if n > u32::MAX {
        u32::MAX as nat
    } else {
        n
    }
}

/// The number of chunks a file of `total_size` bytes is sent in.
pub fn chunk_count(total_size: u64) -> (r: u32)
    ensures
        r as nat == spec_chunk_count(total_size as nat),
{
    let n: u64 = total_size / 65536 + if total_size % 65536 == 0 { 0 } else { 1 };
    assert(n == (total_size + 65535) / 65536);
    if n > 0xFFFF_FFFF {
        0xFFFF_FFFF
    } else {
        n as u32
    }
}

/// Chunks of that number cover a file, and one chunk fewer would not, as long as the count
/// fits in a `u32`.
pub proof fn lemma_chunk_count_covers(total_size: nat)
    requires
        (total_size + 65535nat) / 65536nat <= u32::MAX,
    ensures
        spec_chunk_count(total_size) * CHUNK_SIZE >= total_size,
        total_size > 0 ==> (spec_chunk_count(total_size) - 1) * CHUNK_SIZE < total_size,
        total_size == 0 ==> spec_chunk_count(total_size) == 0,
{
    let c = CHUNK_SIZE as int;
    let t = total_size as int;
    let n = (t + c - 1) / c;
    vstd::arithmetic::div_mod::lemma_fundamental_div_mod(t + c - 1, c);
    let r = (t + c - 1) % c;
    assert(t + c - 1 == c * n + r);
    assert(0 <= r < c);
    assert(n * c >= t) by (nonlinear_arith)
        requires
            t + c - 1 == c * n + r,
            r < c,
    ;
    if t > 0 {
        assert((n - 1) * c < t) by (nonlinear_arith)
            requires
                t + c - 1 == c * n + r,
                0 <= r,
        ;
    }
}

/// Which part of an upload a chunk is.
#[derive(Clone, Copy, Debug, PartialEq, Eq, Structural)]
pub enum UploadPhase {
    /// The first chunk: the temporary file is created and written.
    First,
    /// A chunk between the first and the last: it is appended.
    Middle,
    /// The last chunk: it is appended, and the file is moved to its place.
    Last,
}

/// Which part of an upload chunk `chunk_index` of `total_chunks` is.
pub open spec fn spec_upload_phase(chunk_index: u32, total_chunks: u32) -> UploadPhase {
    if chunk_index == 0 {
        UploadPhase::First
    } else if chunk_index + 1 < total_chunks {
        UploadPhase::Middle
    } else {
        UploadPhase::Last
    }
}

/// The paths and the part of an upload that a chunk belongs to.
#[derive(Clone, Debug, PartialEq, Eq)]
pub struct UploadPlan {
    pub file_path: String,
    pub temp_path: String,
    pub phase: UploadPhase,
}

/// Where an upload chunk goes and what is done with it. The chunk index must leave room
/// for the next one.
pub fn plan_upload_chunk(remote_path: &str, filename: &str, chunk_index: u32, total_chunks: u32) -> (r: UploadPlan)
    requires
        chunk_index < u32::MAX,
    ensures
        r.file_path@ == spec_join_remote_path(remote_path@, filename@),
        r.temp_path@ == spec_join_remote_path(remote_path@, filename@) + ".tmp"@,
        r.phase == spec_upload_phase(chunk_index, total_chunks),
{
    let file_path = join_remote_path(remote_path, filename);
    let temp_path = upload_temp_path(file_path.as_str());
    let phase = if chunk_index == 0 {
        UploadPhase::First
    } else if chunk_index + 1 < total_chunks {
        UploadPhase::Middle
    } else {
        UploadPhase::Last
    };
    UploadPlan { file_path, temp_path, phase }
}

/// What is done with an upload chunk, once the table of uploads has been consulted.
#[derive(Debug)]
pub enum UploadStep<F> {
    /// The first chunk: the temporary file is opened for appending and the chunk written;
    /// where that succeeds, the upload is stored in the table (`KeyedTable::insert`).
    Open,
    /// A chunk between the first and the last: the stored upload, taken out of the table.
    /// The chunk is written to it and, where writing succeeds, it is stored back.
    Append(FileUpload<F>),
    /// The last chunk: the stored upload, taken out of the table for good. The chunk is
    /// written, the file closed and renamed from its temporary path to its final path.
    Finish(FileUpload<F>),
    /// No upload is stored under the key: the message reported to the web client.
    Missing(String),
}

/// Consults the table of uploads for chunk `chunk_index` of `total_chunks` of the upload
/// `upload_id` of connection `cid`. The chunk index must leave room for the next one.
pub fn upload_chunk_step<F>(
    uploads: &mut KeyedTable<FileUpload<F>>,
    cid: u128,
    upload_id: u32,
    chunk_index: u32,
    total_chunks: u32,
) -> (r: UploadStep<F>)
    requires
        old(uploads).wf(),
        chunk_index < u32::MAX,
    ensures
        final(uploads).wf(),
        match spec_upload_phase(chunk_index, total_chunks) {
            UploadPhase::First => r is Open && final(uploads)@ == old(uploads)@,
            UploadPhase::Middle => if old(uploads)@.contains_key((cid, upload_id)) {
                &&& r == UploadStep::Append(old(uploads)@[(cid, upload_id)])
                &&& final(uploads)@ == old(uploads)@.remove((cid, upload_id))
            } else {
                &&& r matches UploadStep::Missing(m) && m@ == "File handle not found"@
                &&& final(uploads)@ == old(uploads)@
            },
            UploadPhase::Last => if old(uploads)@.contains_key((cid, upload_id)) {
                &&& r == UploadStep::Finish(old(uploads)@[(cid, upload_id)])
                &&& final(uploads)@ == old(uploads)@.remove((cid, upload_id))
            } else {
                &&& r matches UploadStep::Missing(m) && m@ == "File handle not found for final chunk"@
                &&& final(uploads)@ == old(uploads)@
            },
        },
{
    if chunk_index == 0 {
        return UploadStep::Open;
    }
    let middle = chunk_index + 1 < total_chunks;
    match uploads.remove(cid, upload_id) {
        Some(upload) => {
            if middle {
                UploadStep::Append(upload)
            } else {
                UploadStep::Finish(upload)
            }
        },
        None => {
            assert(old(uploads)@.remove((cid, upload_id)) =~= old(uploads)@);
            if middle {
                UploadStep::Missing(String::from_str("File handle not found"))
            } else {
                UploadStep::Missing(String::from_str("File handle not found for final chunk"))
            }
        },
    }
}

/// The table of uploads after a chunk of `phase` whose write succeeds: the first chunk's
/// upload is stored; a middle chunk's upload, taken out, is stored back as `stored`; the
/// last chunk's upload is taken out for good.
pub open spec fn table_after_chunk<F>(
    m: Map<SessionKey, FileUpload<F>>,
    key: SessionKey,
    phase: UploadPhase,
    stored: FileUpload<F>,
) -> Map<SessionKey, FileUpload<F>> {
    match phase {
        UploadPhase::First => m.insert(key, stored),
        UploadPhase::Middle => if m.contains_key(key) {
            m.remove(key).insert(key, stored)
        } else {
            m
        },
        UploadPhase::Last => m.remove(key),
    }
}

/// The table of uploads after the first `i` chunks of an upload of `n` chunks under `key`,
/// each written successfully, `stored[j]` being the upload stored after chunk `j`.
pub open spec fn table_after_chunks<F>(
    m: Map<SessionKey, FileUpload<F>>,
    key: SessionKey,
    n: u32,
    stored: Seq<FileUpload<F>>,
    i: nat,
) -> Map<SessionKey, FileUpload<F>>
    decreases i,
{
    if i == 0 {
        m
    } else {
        table_after_chunk(
            table_after_chunks(m, key, n, stored, (i - 1) as nat),
            key,
            spec_upload_phase((i - 1) as u32, n),
            stored[i - 1],
        )
    }
}

/// A whole upload of `n >= 2` chunks sent in order, every write succeeding: the first chunk
/// opens it, each later chunk finds its upload in the table (so none is answered "File
/// handle not found"), only the last is the last, and afterwards the table is as it was
/// before the upload.
pub proof fn lemma_whole_upload<F>(
    m: Map<SessionKey, FileUpload<F>>,
    key: SessionKey,
    n: u32,
    stored: Seq<FileUpload<F>>,
)
    requires
        2 <= n,
        stored.len() == n,
        !m.contains_key(key),
    ensures
        spec_upload_phase(0, n) == UploadPhase::First,
        forall|j: u32| 0 < j < n - 1 ==> spec_upload_phase(j, n) == UploadPhase::Middle,
        spec_upload_phase((n - 1) as u32, n) == UploadPhase::Last,
        forall|i: nat|
            1 <= i < n ==> #[trigger] table_after_chunks(m, key, n, stored, i) == m.insert(
                key,
                stored[i - 1],
            ),
        table_after_chunks(m, key, n, stored, n as nat) == m,
{
    assert forall|i: nat| 1 <= i < n implies #[trigger] table_after_chunks(m, key, n, stored, i)
        == m.insert(key, stored[i - 1]) by {
        lemma_upload_prefix(m, key, n, stored, i);
    }
    lemma_upload_prefix(m, key, n, stored, (n - 1) as nat);
    assert(m.insert(key, stored[n - 2]).remove(key) =~= m);
}

/// The table after the first `i` chunks of a whole upload, `1 <= i < n`, holds the upload
/// stored after chunk `i - 1` and is otherwise as before.
proof fn lemma_upload_prefix<F>(
    m: Map<SessionKey, FileUpload<F>>,
    key: SessionKey,
    n: u32,
    stored: Seq<FileUpload<F>>,
    i: nat,
)
    requires
        2 <= n,
        stored.len() == n,
        !m.contains_key(key),
        1 <= i < n,
    ensures
        table_after_chunks(m, key, n, stored, i) == m.insert(key, stored[i - 1]),
    decreases i,
{
    if i > 1 {
        lemma_upload_prefix(m, key, n, stored, (i - 1) as nat);
        let prev = m.insert(key, stored[i - 2]);
        assert(table_after_chunks(m, key, n, stored, (i - 1) as nat) == prev);
        assert(prev.contains_key(key));
        assert(spec_upload_phase((i - 1) as u32, n) == UploadPhase::Middle);
        assert(prev.remove(key).insert(key, stored[i - 1]) =~= m.insert(key, stored[i - 1]));
        assert(table_after_chunks(m, key, n, stored, i) == table_after_chunk(
            prev,
            key,
            spec_upload_phase((i - 1) as u32, n),
            stored[i - 1],
        ));
    } else {
        assert(spec_upload_phase(0, n) == UploadPhase::First);
        assert(table_after_chunks(m, key, n, stored, 0) == m);
        assert(((i - 1) as nat) as u32 == 0);
    }
}

/// A download in progress: what the next chunk sent is numbered.
#[derive(Clone, Debug, PartialEq, Eq)]
pub struct DownloadProgress {
    pub filename: String,
    pub total_size: u64,
    pub total_chunks: u32,
    pub next_index: u32,
}

/// A download of `filename`, `total_size` bytes long, before its first chunk.
pub fn start_download(filename: String, total_size: u64) -> (r: DownloadProgress)
    ensures
        r.filename == filename,
        r.total_size == total_size,
        r.total_chunks as nat == spec_chunk_count(total_size as nat),
        r.next_index == 0,
{
    DownloadProgress { filename, total_size, total_chunks: chunk_count(total_size), next_index: 0 }
}

/// The chunk to send for the bytes just read from the file; `None` once a read gives no
/// bytes, which ends the download. The chunk index must leave room for the next one.
pub fn next_file_chunk(progress: &mut DownloadProgress, read: Vec<u8>) -> (r: Option<SFTPFileChunk>)
    requires
        read@.len() <= CHUNK_SIZE,
        read@.len() > 0 ==> old(progress).next_index < u32::MAX,
    ensures
        read@.len() == 0 ==> r is None && *final(progress) == *old(progress),
        read@.len() > 0 ==> (r matches Some(c) && {
            &&& c.filename@ == old(progress).filename@
            &&& c.chunk_index == old(progress).next_index
            &&& c.total_chunks == old(progress).total_chunks
            &&& c.total_size == old(progress).total_size
            &&& c.chunk_size as nat == read@.len()
            &&& c.data@ == read@
            &&& final(progress).next_index == old(progress).next_index + 1
            &&& final(progress).filename == old(progress).filename
            &&& final(progress).total_size == old(progress).total_size
            &&& final(progress).total_chunks == old(progress).total_chunks
        }),
{
    let n = read.len();
    if n == 0 {
        return None;
    }
    let chunk = SFTPFileChunk {
        filename: progress.filename.clone(),
        chunk_index: progress.next_index,
        total_chunks: progress.total_chunks,
        total_size: progress.total_size,
        chunk_size: n as u32,
        data: read,
    };
    progress.next_index = progress.next_index + 1;
    Some(chunk)
}

/// A file being uploaded, with the handle `F` of its temporary remote file. Times are
/// nanoseconds since the Unix epoch.
#[derive(Debug)]
pub struct FileUpload<F> {
    pub filename: String,
    pub remote_path: String,
    pub total_chunks: u32,
    pub total_size: u64,
    pub sftp_file: F,
    pub temp_path: String,
    pub started_at: i128,
    pub last_updated: i128,
}

/// A file being downloaded, with the handle `F` of the remote file. Times are nanoseconds
/// since the Unix epoch.
#[derive(Debug)]
pub struct FileDownload<F> {
    pub filename: String,
    pub total_size: u64,
    pub total_chunks: u32,
    pub sftp_file: F,
    pub started_at: i128,
    pub last_updated: i128,
}

/// A transfer that records when it last made progress.
pub trait Transfer {
    /// When the transfer last made progress, in nanoseconds since the Unix epoch.
    spec fn spec_last_updated(&self) -> i128;

    /// When the transfer last made progress.
    fn last_updated(&self) -> (r: i128)
        ensures
            r == self.spec_last_updated();
}

impl<F> Transfer for FileUpload<F> {
    open spec fn spec_last_updated(&self) -> i128 {
        self.last_updated
    }

    fn last_updated(&self) -> (r: i128)
        ensures
            r == self.last_updated,
    {
        self.last_updated
    }
}

impl<F> Transfer for FileDownload<F> {
    open spec fn spec_last_updated(&self) -> i128 {
        self.last_updated
    }

    fn last_updated(&self) -> (r: i128)
        ensures
            r == self.last_updated,
    {
        self.last_updated
    }
}

/// Whether a transfer last updated at `last_updated` counts as abandoned at `now`: the clock
/// has not gone back past it and more than the timeout has passed.
pub open spec fn spec_abandoned(now: i128, last_updated: i128) -> bool {
    now >= last_updated && now - last_updated > TRANSFER_TIMEOUT_NANOS
}

/// Whether a transfer last updated at `last_updated` counts as abandoned at `now`.
pub fn is_abandoned(now: i128, last_updated: i128) -> (r: bool)
    ensures
        r == spec_abandoned(now, last_updated),
{
    if now < last_updated {
        false
    } else {
        match now.checked_sub(last_updated) {
            Some(elapsed) => elapsed > TRANSFER_TIMEOUT_NANOS,
            None => true,
        }
    }
}

/// The keys of the transfers of `m` abandoned at `now`.
pub open spec fn abandoned_keys<T: Transfer>(m: Map<SessionKey, T>, now: i128) -> Set<SessionKey> {
    Set::new(|k: SessionKey| m.contains_key(k) && spec_abandoned(now, m[k].spec_last_updated()))
}

/// A download counts as abandoned by how long it has gone without progress, measured from
/// its `last_updated` time (not from when it started): exactly the downloads last updated at
/// or before `now` and more than fifteen minutes (900 s) before it.
pub proof fn lemma_abandoned_downloads<F>(m: Map<SessionKey, FileDownload<F>>, now: i128, k: SessionKey)
    ensures
        abandoned_keys(m, now).contains(k) <==> (m.contains_key(k) && now >= m[k].last_updated && now
            - m[k].last_updated > 900_000_000_000),
{
}

/// An upload counts as abandoned by how long it has gone without progress, measured from its
/// `last_updated` time: exactly the uploads last updated at or before `now` and more than
/// fifteen minutes (900 s) before it.
pub proof fn lemma_abandoned_uploads<F>(m: Map<SessionKey, FileUpload<F>>, now: i128, k: SessionKey)
    ensures
        abandoned_keys(m, now).contains(k) <==> (m.contains_key(k) && now >= m[k].last_updated && now
            - m[k].last_updated > 900_000_000_000),
{
}

/// Takes the transfers abandoned at `now` out of the table, to be flushed and dropped.
pub fn cleanup_abandoned<T: Transfer>(transfers: &mut KeyedTable<T>, now: i128) -> (removed: Vec<(SessionKey, T)>)
    requires
        old(transfers).wf(),
    ensures
        final(transfers).wf(),
        final(transfers)@ == without_keys(old(transfers)@, abandoned_keys(old(transfers)@, now)),
        forall|j: int|
            0 <= j < removed@.len() ==> old(transfers)@.contains_key(#[trigger] removed@[j].0)
                && old(transfers)@[removed@[j].0] == removed@[j].1
                && spec_abandoned(now, removed@[j].1.spec_last_updated()),
        forall|k: SessionKey|
            #![trigger abandoned_keys(old(transfers)@, now).contains(k)]
            abandoned_keys(old(transfers)@, now).contains(k) ==> has_key(removed@, k),
{
    let mut marks: Vec<bool> = Vec::new();
    let mut i: usize = 0;
    let n = transfers.len();
    while i < n
        invariant
            transfers.wf(),
            n == transfers.entries().len(),
            0 <= i <= n,
            marks@.len() == i,
            forall|j: int|
                0 <= j < i ==> marks@[j] == spec_abandoned(
                    now,
                    transfers.entries()[j].1.spec_last_updated(),
                ),
        decreases n - i,
    {
        let e = transfers.entry(i);
        marks.push(is_abandoned(now, e.1.last_updated()));
        i = i + 1;
    }
    let ghost s0 = transfers.entries();
    let ghost m0 = transfers@;
    proof {
        transfers.lemma_view_entries();
        assert(marked_keys(s0, marks@) =~= abandoned_keys(m0, now)) by {
            assert forall|k: SessionKey| marked_keys(s0, marks@).contains(k) <==> abandoned_keys(m0, now).contains(k) by {
                if marked_keys(s0, marks@).contains(k) {
                    let a = choose|a: int| 0 <= a < s0.len() && marks@[a] && s0[a].0 == k;
                    crate::table::lemma_entries_map_at(s0, a);
                }
                if abandoned_keys(m0, now).contains(k) {
                    let a = choose|a: int| 0 <= a < s0.len() && s0[a].0 == k;
                    crate::table::lemma_entries_map_at(s0, a);
                    assert(marks@[a]);
                }
            }
        }
    }
    transfers.remove_marked(&marks)
}

/// Takes the uploads of connection `cid` writing to `temp_path` out of the table, as a
/// delete of that file cancels them.
pub fn cancel_uploads_for_path<F>(uploads: &mut KeyedTable<FileUpload<F>>, cid: u128, temp_path: &str) -> (removed: Vec<(SessionKey, FileUpload<F>)>)
    requires
        old(uploads).wf(),
    ensures
        final(uploads).wf(),
        final(uploads)@ == without_keys(old(uploads)@, uploads_to_path(old(uploads)@, cid, temp_path@)),
        forall|j: int|
            0 <= j < removed@.len() ==> old(uploads)@.contains_key(#[trigger] removed@[j].0)
                && old(uploads)@[removed@[j].0] == removed@[j].1,
        forall|k: SessionKey|
            #![trigger uploads_to_path(old(uploads)@, cid, temp_path@).contains(k)]
            uploads_to_path(old(uploads)@, cid, temp_path@).contains(k) ==> has_key(removed@, k),
{
    let mut marks: Vec<bool> = Vec::new();
    let mut i: usize = 0;
    let n = uploads.len();
    while i < n
        invariant
            uploads.wf(),
            n == uploads.entries().len(),
            0 <= i <= n,
            marks@.len() == i,
            forall|j: int|
                0 <= j < i ==> marks@[j] == (uploads.entries()[j].0.0 == cid
                    && uploads.entries()[j].1.temp_path@ == temp_path@),
        decreases n - i,
    {
        let e = uploads.entry(i);
        let m = e.0.0 == cid && crate::text::eq_str(e.1.temp_path.as_str(), temp_path);
        marks.push(m);
        i = i + 1;
    }
    let ghost s0 = uploads.entries();
    let ghost m0 = uploads@;
    proof {
        uploads.lemma_view_entries();
        assert(marked_keys(s0, marks@) =~= uploads_to_path(m0, cid, temp_path@)) by {
            assert forall|k: SessionKey| marked_keys(s0, marks@).contains(k) <==> uploads_to_path(m0, cid, temp_path@).contains(k) by {
                if marked_keys(s0, marks@).contains(k) {
                    let a = choose|a: int| 0 <= a < s0.len() && marks@[a] && s0[a].0 == k;
                    crate::table::lemma_entries_map_at(s0, a);
                }
                if uploads_to_path(m0, cid, temp_path@).contains(k) {
                    let a = choose|a: int| 0 <= a < s0.len() && s0[a].0 == k;
                    crate::table::lemma_entries_map_at(s0, a);
                    assert(marks@[a]);
                }
            }
        }
    }
    uploads.remove_marked(&marks)
}

/// The keys of the uploads of connection `cid` that write to `temp_path`.
pub open spec fn uploads_to_path<F>(m: Map<SessionKey, FileUpload<F>>, cid: u128, temp_path: Seq<char>) -> Set<SessionKey> {
    Set::new(|k: SessionKey| m.contains_key(k) && k.0 == cid && m[k].temp_path@ == temp_path)
}

/// Takes every upload of connection `cid` out of the table, to be flushed and dropped.
pub fn close_uploads_for_cid<F>(uploads: &mut KeyedTable<FileUpload<F>>, cid: u128) -> (removed: Vec<(SessionKey, FileUpload<F>)>)
    requires
        old(uploads).wf(),
    ensures
        final(uploads).wf(),
        final(uploads)@ == without_keys(old(uploads)@, keys_of_connection(old(uploads)@, cid)),
        forall|j: int|
            0 <= j < removed@.len() ==> old(uploads)@.contains_key(#[trigger] removed@[j].0)
                && old(uploads)@[removed@[j].0] == removed@[j].1 && removed@[j].0.0 == cid,
        forall|k: SessionKey|
            #![trigger keys_of_connection(old(uploads)@, cid).contains(k)]
            keys_of_connection(old(uploads)@, cid).contains(k) ==> has_key(removed@, k),
{
    uploads.remove_for_cid(cid)
}

} // verus!
