use phirepass::daemon::sftp::{
    build_listing, DirEntryInfo,
    cancel_uploads_for_path, chunk_count, cleanup_abandoned, close_uploads_for_cid, delete_target_path, join_remote_path, next_file_chunk,
    plan_upload_chunk, start_download, upload_temp_path, FileDownload, FileUpload, SFTPClient, SFTPConfig, SFTPConfigAuth, SFTPConnection,
    upload_chunk_step, UploadPhase, UploadStep,
};
use phirepass::protocol::sftp::{SFTPListItem, SFTPListItemAttributes, SFTPListItemKind};
use phirepass::table::KeyedTable;

fn upload(temp: &str, last: i128) -> FileUpload<u8> {
    FileUpload {
        filename: "f".to_string(),
        remote_path: "/r".to_string(),
        total_chunks: 2,
        total_size: 10,
        sftp_file: 0,
        temp_path: temp.to_string(),
        started_at: 0,
        last_updated: last,
    }
}

#[test]
fn remote_paths() {
    assert_eq!(join_remote_path("/home/u", "a.txt"), "/home/u/a.txt");
    assert_eq!(join_remote_path("/home/u/", "a.txt"), "/home/u/a.txt");
    assert_eq!(join_remote_path("", "a.txt"), "/a.txt");
    assert_eq!(upload_temp_path("/x/y"), "/x/y.tmp");
    assert_eq!(delete_target_path("/home/u///", "a"), "/home/u/a");
    assert_eq!(delete_target_path("/", "a"), "/a");
    assert_eq!(delete_target_path("rel", "a"), "rel/a");
}

#[test]
fn chunk_counts() {
    assert_eq!(chunk_count(0), 0);
    assert_eq!(chunk_count(1), 1);
    assert_eq!(chunk_count(65536), 1);
    assert_eq!(chunk_count(65537), 2);
    assert_eq!(chunk_count(u64::MAX), u32::MAX);
    let float = |n: u64| ((n as f64) / (65536f64)).ceil() as u32;
    for n in [0u64, 5, 65535, 65536, 65537, 1 << 40, (1 << 48) + 3, u64::MAX - 1] {
        assert_eq!(chunk_count(n), float(n));
    }
}

#[test]
fn upload_phases() {
    let p = plan_upload_chunk("/d/", "f", 0, 3);
    assert_eq!((p.file_path.as_str(), p.temp_path.as_str(), p.phase), ("/d/f", "/d/f.tmp", UploadPhase::First));
    assert_eq!(plan_upload_chunk("/d", "f", 1, 3).phase, UploadPhase::Middle);
    assert_eq!(plan_upload_chunk("/d", "f", 2, 3).phase, UploadPhase::Last);
    assert_eq!(plan_upload_chunk("/d", "f", 0, 1).phase, UploadPhase::First);
    assert_eq!(plan_upload_chunk("/d", "f", 5, 3).phase, UploadPhase::Last);
}

#[test]
fn download_chunks_are_numbered() {
    let mut progress = start_download("f.bin".to_string(), 70000);
    assert_eq!(progress.total_chunks, 2);
    let c0 = next_file_chunk(&mut progress, vec![1; 65536]).unwrap();
    assert_eq!((c0.chunk_index, c0.chunk_size, c0.total_chunks, c0.total_size), (0, 65536, 2, 70000));
    let c1 = next_file_chunk(&mut progress, vec![2; 4464]).unwrap();
    assert_eq!((c1.chunk_index, c1.chunk_size, c1.filename.as_str()), (1, 4464, "f.bin"));
    assert!(next_file_chunk(&mut progress, vec![]).is_none());
    assert_eq!(progress.next_index, 2);
}

#[test]
fn abandoned_transfers_are_cleaned_up() {
    let timeout: i128 = 900_000_000_000;
    let mut uploads: KeyedTable<FileUpload<u8>> = KeyedTable::new();
    uploads.insert(1, 1, upload("a.tmp", 0));
    uploads.insert(1, 2, upload("b.tmp", 100));
    uploads.insert(2, 1, upload("c.tmp", 2 * timeout));
    let removed = cleanup_abandoned(&mut uploads, timeout + 50);
    assert_eq!(removed.len(), 1);
    assert_eq!(removed[0].0, (1, 1));
    assert_eq!(uploads.len(), 2);
    assert!(uploads.get(1, 2).is_some());
    assert!(uploads.get(2, 1).is_some());
    let removed = cleanup_abandoned(&mut uploads, timeout + 100);
    assert_eq!(removed.len(), 0);

    let mut downloads: KeyedTable<FileDownload<u8>> = KeyedTable::new();
    downloads.insert(4, 4, FileDownload { filename: "d".to_string(), total_size: 1, total_chunks: 1, sftp_file: 0, started_at: 0, last_updated: -5 });
    assert_eq!(cleanup_abandoned(&mut downloads, i128::MAX).len(), 1);
}

#[test]
fn uploads_of_a_connection_are_closed() {
    let mut uploads: KeyedTable<FileUpload<u8>> = KeyedTable::new();
    uploads.insert(7, 1, upload("a.tmp", 0));
    uploads.insert(7, 2, upload("b.tmp", 0));
    uploads.insert(8, 1, upload("a.tmp", 0));
    let cancelled = cancel_uploads_for_path(&mut uploads, 7, "a.tmp");
    assert_eq!(cancelled.len(), 1);
    assert_eq!(cancelled[0].0, (7, 1));
    let closed = close_uploads_for_cid(&mut uploads, 7);
    assert_eq!(closed.len(), 1);
    assert_eq!(uploads.len(), 1);
    assert!(uploads.get(8, 1).is_some());
}

#[test]
fn sftp_connection_keeps_config() {
    let config = SFTPConfig { host: "h".to_string(), port: 2222, credentials: SFTPConfigAuth::UsernamePassword("u".to_string(), "p".to_string()) };
    let c = SFTPConnection::new(config.clone());
    assert_eq!(c.get_config(), &config);
    assert!(SFTPClient {}.check_server_key());
}

#[test]
fn directory_listings() {
    let entries = vec![
        DirEntryInfo { name: "docs".to_string(), is_dir: true, size: Some(4096) },
        DirEntryInfo { name: "a.txt".to_string(), is_dir: false, size: None },
    ];
    let listing = build_listing(".", "/home/user".to_string(), Some(10), entries);
    assert_eq!(listing.name, "user");
    assert_eq!(listing.path, "/home/user");
    assert_eq!(listing.kind, SFTPListItemKind::Folder);
    assert_eq!(listing.attributes.size, 10);
    assert_eq!(listing.items.len(), 2);
    assert_eq!(listing.items[0].kind, SFTPListItemKind::Folder);
    assert_eq!(listing.items[1].kind, SFTPListItemKind::File);
    assert_eq!(listing.items[1].attributes.size, 0);
    assert_eq!(listing.items[1].path, "/home/user");
    assert_eq!(build_listing("x", "/".to_string(), None, vec![]).name, "/");
    assert_eq!(build_listing("req", "".to_string(), None, vec![]).name, "req");
}

#[test]
fn upload_lifecycle_in_the_table() {
    let mut uploads: KeyedTable<FileUpload<u8>> = KeyedTable::new();
    assert!(matches!(upload_chunk_step(&mut uploads, 7, 1, 0, 3), UploadStep::Open));
    assert_eq!(uploads.len(), 0);
    uploads.insert(7, 1, upload("/r/f.tmp", 5));
    match upload_chunk_step(&mut uploads, 7, 1, 1, 3) {
        UploadStep::Append(u) => {
            assert_eq!(u.temp_path, "/r/f.tmp");
            assert_eq!(uploads.len(), 0);
            uploads.insert(7, 1, u);
        }
        other => panic!("unexpected {other:?}"),
    }
    match upload_chunk_step(&mut uploads, 7, 1, 2, 3) {
        UploadStep::Finish(u) => assert_eq!(u.temp_path, "/r/f.tmp"),
        other => panic!("unexpected {other:?}"),
    }
    assert_eq!(uploads.len(), 0);
    match upload_chunk_step(&mut uploads, 7, 1, 1, 3) {
        UploadStep::Missing(m) => assert_eq!(m, "File handle not found"),
        other => panic!("unexpected {other:?}"),
    }
    match upload_chunk_step(&mut uploads, 7, 1, 2, 3) {
        UploadStep::Missing(m) => assert_eq!(m, "File handle not found for final chunk"),
        other => panic!("unexpected {other:?}"),
    }
    uploads.insert(8, 1, upload("/r/g.tmp", 5));
    assert!(matches!(upload_chunk_step(&mut uploads, 7, 1, 1, 3), UploadStep::Missing(_)));
    assert_eq!(uploads.len(), 1);
}

#[test]
fn listings_nest() {
    let leaf = SFTPListItem {
        name: "a.txt".to_string(),
        path: "/r/d".to_string(),
        kind: SFTPListItemKind::File,
        items: vec![],
        attributes: SFTPListItemAttributes { size: 3 },
    };
    let dir = SFTPListItem {
        name: "d".to_string(),
        path: "/r".to_string(),
        kind: SFTPListItemKind::Folder,
        items: vec![leaf],
        attributes: SFTPListItemAttributes { size: 0 },
    };
    let root = SFTPListItem {
        name: "r".to_string(),
        path: "/r".to_string(),
        kind: SFTPListItemKind::Folder,
        items: vec![dir],
        attributes: SFTPListItemAttributes { size: 0 },
    };
    assert_eq!(root.items[0].items[0].name, "a.txt");
    let listing = build_listing("/r", "/r".to_string(), None, vec![DirEntryInfo { name: "d".to_string(), is_dir: true, size: None }]);
    assert_eq!(listing.name, "r");
    assert!(listing.items[0].items.is_empty());
}
