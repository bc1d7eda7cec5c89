//! Payloads of the SFTP operations carried inside node and web frames.
use vstd::prelude::*;

verus! {

/// Whether a listed entry is a file or a folder.
#[derive(Clone, Copy, Debug, PartialEq, Eq, Structural)]
pub enum SFTPListItemKind {
    File,
    Folder,
}

impl SFTPListItemKind {
    /// The number that stands for this kind on the wire.
    pub fn code(&self) -> (r: u8)
        ensures
            r == (if *self == SFTPListItemKind::File { 0u8 } else { 1u8 }),
    {
        match self {
            SFTPListItemKind::File => 0,
            SFTPListItemKind::Folder => 1,
        }
    }
}

/// Attributes reported for a listed entry.
#[derive(Clone, Copy, Debug, PartialEq, Eq, Structural)]
pub struct SFTPListItemAttributes {
    pub size: u64,
}

/// An entry of a directory listing: a file, or a folder with the entries listed below it.
#[derive(Debug)]
pub struct SFTPListItem {
    pub name: String,
    pub path: String,
    pub kind: SFTPListItemKind,
    pub items: Vec<SFTPListItem>,
    pub attributes: SFTPListItemAttributes,
}

/// One chunk of a file sent to the web client.
#[derive(Clone, Debug, PartialEq, Eq)]
pub struct SFTPFileChunk {
    pub filename: String,
    pub chunk_index: u32,
    pub total_chunks: u32,
    pub total_size: u64,
    pub chunk_size: u32,
    pub data: Vec<u8>,
}

/// A request to start downloading `path/filename`.
#[derive(Clone, Debug, PartialEq, Eq)]
pub struct SFTPDownloadStart {
    pub path: String,
    pub filename: String,
}

/// The answer to a download start.
#[derive(Clone, Copy, Debug, PartialEq, Eq, Structural)]
pub struct SFTPDownloadStartResponse {
    pub download_id: u32,
    pub total_size: u64,
    pub total_chunks: u32,
}

/// One chunk of a download, or a request for it when `data` is empty.
#[derive(Clone, Debug, PartialEq, Eq)]
pub struct SFTPDownloadChunk {
    pub download_id: u32,
    pub chunk_index: u32,
    pub chunk_size: u32,
    pub data: Vec<u8>,
}

/// A request to start uploading a file of `total_size` bytes in `total_chunks` chunks.
#[derive(Clone, Debug, PartialEq, Eq)]
pub struct SFTPUploadStart {
    pub filename: String,
    pub remote_path: String,
    pub total_chunks: u32,
    pub total_size: u64,
}

/// The answer to an upload start.
#[derive(Clone, Copy, Debug, PartialEq, Eq, Structural)]
pub struct SFTPUploadStartResponse {
    pub upload_id: u32,
}

/// One chunk of an upload.
#[derive(Clone, Debug, PartialEq, Eq)]
pub struct SFTPUploadChunk {
    pub upload_id: u32,
    pub chunk_index: u32,
    pub chunk_size: u32,
    pub data: Vec<u8>,
}

/// A request to delete `path/filename`.
#[derive(Clone, Debug, PartialEq, Eq)]
pub struct SFTPDelete {
    pub path: String,
    pub filename: String,
}

} // verus!
