use romfs::Engine;
use romfs::FileKind;
use romfs::FsError;
use romfs::PatchHeader;
use romfs::ReadPlan;
use romfs::Registry;
use romfs::TimeSpec;

fn ts(sec: i64, nsec: i32) -> TimeSpec {
    TimeSpec { sec, nsec }
}

fn header(target_size: u64) -> PatchHeader {
    PatchHeader {
        target_size,
        create_time: ts(100, 1),
        modify_time: ts(200, 2),
        access_time: ts(300, 3),
    }
}

fn engine_with(names_and_sizes: &[(&str, u64)]) -> Engine {
    let mut reg = Registry::new();
    for (name, size) in names_and_sizes {
        let added = reg.add(name.as_bytes().to_vec(), header(*size));
        assert!(added);
    }
    Engine::new(reg, 1000, 1001)
}

#[test]
fn scenario_single_rom() {
    let mut e = engine_with(&[("a.rom", 10)]);

    let dh = e.opendir(b"/").expect("opendir of root succeeds");
    assert_eq!(dh, 1);

    let rows = e.readdir(dh).expect("readdir on a directory handle succeeds");
    assert_eq!(rows.len(), 3);
    assert_eq!(rows[0].name, b".".to_vec());
    assert_eq!(rows[0].kind, FileKind::Directory);
    assert_eq!(rows[1].name, b"..".to_vec());
    assert_eq!(rows[1].kind, FileKind::Directory);
    assert_eq!(rows[2].name, b"a.rom".to_vec());
    assert_eq!(rows[2].kind, FileKind::RegularFile);

    assert_eq!(e.releasedir(dh), Ok(()));

    let fh = e.open(b"/a.rom").expect("open of a registered name succeeds");
    assert_eq!(fh, 2);

    let content: Vec<u8> = (0u8..10u8).collect();
    let hdr = match e.read_begin(fh, 0, 10).expect("read on a file handle succeeds") {
        ReadPlan::Materialize(hdr) => hdr,
        ReadPlan::Serve(_) => panic!("a fresh handle has no cache to serve from"),
    };
    assert_eq!(hdr.target_size, 10);
    let out = e
        .read_complete(fh, 0, 10, Some(content.clone()))
        .expect("completing with materialized bytes succeeds");
    assert_eq!(out, content);

    match e.read_begin(fh, 5, 10).expect("read on a cached handle succeeds") {
        ReadPlan::Serve(out) => assert_eq!(out, content[5..].to_vec()),
        ReadPlan::Materialize(_) => panic!("a cached handle never re-materializes"),
    }

    assert_eq!(e.release(fh), Ok(()));
    assert_eq!(e.open(b"/missing.rom"), Err(FsError::NotFound));
}

#[test]
fn open_then_getattr_reports_target_size() {
    let mut e = engine_with(&[("a.rom", 123456), ("b.rom", 7)]);
    let fh = e.open(b"/a.rom").unwrap();
    let (ttl, attr) = e.getattr(b"/a.rom", Some(fh)).unwrap();
    assert_eq!(ttl, ts(1, 0));
    assert_eq!(attr.size, 123456);
    assert_eq!(attr.kind, FileKind::RegularFile);

    let fh2 = e.open(b"/b.rom").unwrap();
    let (_, attr2) = e.getattr(b"/b.rom", Some(fh2)).unwrap();
    assert_eq!(attr2.size, 7);
}

#[test]
fn file_attributes_come_from_the_header() {
    let e = engine_with(&[("a.rom", 42)]);
    let (ttl, attr) = e.getattr(b"/a.rom", None).unwrap();
    assert_eq!(ttl, ts(1, 0));
    assert_eq!(attr.size, 42);
    assert_eq!(attr.blocks, 0);
    assert_eq!(attr.crtime, ts(100, 1));
    assert_eq!(attr.mtime, ts(200, 2));
    assert_eq!(attr.ctime, ts(200, 2));
    assert_eq!(attr.atime, ts(300, 3));
    assert_eq!(attr.kind, FileKind::RegularFile);
    assert_eq!(attr.perm, 0o444);
    assert_eq!(attr.nlink, 1);
    assert_eq!(attr.uid, 1000);
    assert_eq!(attr.gid, 1001);
    assert_eq!(attr.rdev, 0);
    assert_eq!(attr.flags, 0);
}

#[test]
fn root_attributes_are_synthesized() {
    let e = engine_with(&[("a.rom", 42)]);
    let (ttl, attr) = e.getattr(b"/", None).unwrap();
    assert_eq!(ttl, ts(1, 0));
    assert_eq!(attr.size, 0);
    assert_eq!(attr.kind, FileKind::Directory);
    assert_eq!(attr.perm, 0o444);
    assert_eq!(attr.atime, ts(0, 0));
    assert_eq!(attr.mtime, ts(0, 0));
    assert_eq!(attr.uid, 1000);
    assert_eq!(attr.gid, 1001);
}

#[test]
fn unknown_path_fails_not_found_everywhere() {
    let mut e = engine_with(&[("a.rom", 10)]);
    assert_eq!(e.open(b"/nope.rom"), Err(FsError::NotFound));
    assert_eq!(e.opendir(b"/nope.rom"), Err(FsError::NotFound));
    assert_eq!(e.getattr(b"/nope.rom", None), Err(FsError::NotFound));
}

#[test]
fn readdir_lists_every_key_once() {
    let mut e = engine_with(&[("a.rom", 1), ("b.rom", 2), ("c.rom", 3)]);
    let dh = e.opendir(b"/").unwrap();
    let rows = e.readdir(dh).unwrap();
    assert_eq!(rows.len(), 5);
    assert_eq!(rows[0].name, b".".to_vec());
    assert_eq!(rows[1].name, b"..".to_vec());
    let mut names: Vec<Vec<u8>> = rows[2..].iter().map(|r| r.name.clone()).collect();
    names.sort();
    assert_eq!(names, vec![b"a.rom".to_vec(), b"b.rom".to_vec(), b"c.rom".to_vec()]);
    for row in &rows[2..] {
        assert_eq!(row.kind, FileKind::RegularFile);
    }
    for i in 0..rows.len() {
        for j in (i + 1)..rows.len() {
            assert_ne!(rows[i].name, rows[j].name);
        }
    }
}

#[test]
fn readdir_on_a_file_handle_fails_not_found() {
    let mut e = engine_with(&[("a.rom", 10)]);
    let fh = e.open(b"/a.rom").unwrap();
    assert_eq!(e.readdir(fh).unwrap_err(), FsError::NotFound);
    assert_eq!(e.readdir(99).unwrap_err(), FsError::NotFound);
}

#[test]
fn handle_identifiers_are_pairwise_distinct() {
    let mut e = engine_with(&[("a.rom", 10)]);
    let mut seen: Vec<u64> = Vec::new();
    seen.push(e.open(b"/a.rom").unwrap());
    seen.push(e.open(b"/a.rom").unwrap());
    seen.push(e.opendir(b"/").unwrap());
    let released = seen[0];
    assert_eq!(e.release(released), Ok(()));
    seen.push(e.open(b"/a.rom").unwrap());
    seen.push(e.opendir(b"/").unwrap());
    for i in 0..seen.len() {
        for j in (i + 1)..seen.len() {
            assert_ne!(seen[i], seen[j]);
        }
    }
}

#[test]
fn released_handles_fail_not_found() {
    let mut e = engine_with(&[("a.rom", 10)]);
    let fh = e.open(b"/a.rom").unwrap();
    assert_eq!(e.release(fh), Ok(()));
    assert_eq!(e.getattr(b"/a.rom", Some(fh)), Err(FsError::NotFound));
    assert!(matches!(e.read_begin(fh, 0, 1), Err(FsError::NotFound)));
    assert_eq!(e.release(fh), Err(FsError::NotFound));

    let dh = e.opendir(b"/").unwrap();
    assert_eq!(e.releasedir(dh), Ok(()));
    assert_eq!(e.readdir(dh).unwrap_err(), FsError::NotFound);
    assert_eq!(e.releasedir(dh), Err(FsError::NotFound));
}

#[test]
fn wrong_handle_kind_fails_not_found() {
    let mut e = engine_with(&[("a.rom", 10)]);
    let fh = e.open(b"/a.rom").unwrap();
    let dh = e.opendir(b"/").unwrap();
    assert_eq!(e.releasedir(fh), Err(FsError::NotFound));
    assert_eq!(e.release(dh), Err(FsError::NotFound));
    assert!(matches!(e.read_begin(dh, 0, 1), Err(FsError::NotFound)));
}

fn read_with_codec(
    e: &mut Engine,
    fh: u64,
    offset: u64,
    size: u32,
    codec_bytes: &[u8],
    codec_calls: &mut usize,
) -> Result<Vec<u8>, FsError> {
    match e.read_begin(fh, offset, size)? {
        ReadPlan::Serve(bytes) => Ok(bytes),
        ReadPlan::Materialize(_hdr) => {
            *codec_calls += 1;
            e.read_complete(fh, offset, size, Some(codec_bytes.to_vec()))
        }
    }
}

#[test]
fn sequential_reads_agree_and_eof_is_short() {
    let mut e = engine_with(&[("a.rom", 8)]);
    let fh = e.open(b"/a.rom").unwrap();
    let content: Vec<u8> = vec![10, 20, 30, 40, 50, 60, 70, 80];
    let mut calls = 0usize;

    let first = read_with_codec(&mut e, fh, 2, 4, &content, &mut calls).unwrap();
    assert_eq!(first, vec![30, 40, 50, 60]);

    let second = read_with_codec(&mut e, fh, 4, 4, &content, &mut calls).unwrap();
    assert_eq!(second, vec![50, 60, 70, 80]);
    assert_eq!(calls, 1, "the second read reuses the first materialization");

    // The overlap [4, 6) is byte-identical across both reads.
    assert_eq!(first[2..4], second[0..2]);

    // Reads past end-of-file are short or empty, never an error.
    let past = read_with_codec(&mut e, fh, 6, 100, &content, &mut calls).unwrap();
    assert_eq!(past, vec![70, 80]);
    let empty = read_with_codec(&mut e, fh, 8, 4, &content, &mut calls).unwrap();
    assert_eq!(empty, Vec::<u8>::new());
    let far = read_with_codec(&mut e, fh, 1000, 4, &content, &mut calls).unwrap();
    assert_eq!(far, Vec::<u8>::new());
    assert_eq!(calls, 1);
}

#[test]
fn many_reads_materialize_at_most_once_per_handle() {
    let mut e = engine_with(&[("a.rom", 4)]);
    let fh = e.open(b"/a.rom").unwrap();
    let content: Vec<u8> = vec![9, 8, 7, 6];
    let mut calls = 0usize;
    for _ in 0..16 {
        let out = read_with_codec(&mut e, fh, 0, 4, &content, &mut calls).unwrap();
        assert_eq!(out, content);
    }
    assert_eq!(calls, 1);

    // An independent handle to the same path has an independent cache.
    let fh2 = e.open(b"/a.rom").unwrap();
    let out = read_with_codec(&mut e, fh2, 0, 4, &content, &mut calls).unwrap();
    assert_eq!(out, content);
    assert_eq!(calls, 2);
}

#[test]
fn failed_materialization_leaves_the_cache_empty_for_retry() {
    let mut e = engine_with(&[("a.rom", 4)]);
    let fh = e.open(b"/a.rom").unwrap();
    assert!(matches!(e.read_begin(fh, 0, 4), Ok(ReadPlan::Materialize(_))));
    assert_eq!(e.read_complete(fh, 0, 4, None), Err(FsError::IOFailure));

    // The cache is still empty: the next read asks to materialize again.
    assert!(matches!(e.read_begin(fh, 0, 4), Ok(ReadPlan::Materialize(_))));
    let out = e.read_complete(fh, 0, 4, Some(vec![1, 2, 3, 4])).unwrap();
    assert_eq!(out, vec![1, 2, 3, 4]);

    // A cache filled in the meantime wins over a late materialization.
    let late = e.read_complete(fh, 0, 4, Some(vec![5, 5, 5, 5])).unwrap();
    assert_eq!(late, vec![1, 2, 3, 4]);
}

#[test]
fn paths_are_normalized_by_one_leading_slash() {
    let mut e = engine_with(&[("a.rom", 10)]);
    // With or without the leading slash, the same name resolves.
    assert!(e.open(b"a.rom").is_ok());
    assert!(e.open(b"/a.rom").is_ok());
    assert!(e.opendir(b"").is_ok());
    assert!(e.opendir(b"/").is_ok());
    // Only one slash is stripped: a doubled slash is not the root.
    assert_eq!(e.opendir(b"//"), Err(FsError::NotFound));
}

#[test]
fn empty_registry_lists_only_the_dot_entries() {
    let mut e = engine_with(&[]);
    let dh = e.opendir(b"/").unwrap();
    let rows = e.readdir(dh).unwrap();
    assert_eq!(rows.len(), 2);
    assert_eq!(rows[0].name, b".".to_vec());
    assert_eq!(rows[1].name, b"..".to_vec());
}

#[test]
fn access_always_succeeds() {
    let e = engine_with(&[("a.rom", 10)]);
    assert_eq!(e.access(b"/", 0), Ok(()));
    assert_eq!(e.access(b"/a.rom", 7), Ok(()));
    assert_eq!(e.access(b"/missing", 7), Ok(()));
}

#[test]
fn registry_refuses_duplicate_names() {
    let mut reg = Registry::new();
    assert!(reg.add(b"a.rom".to_vec(), header(1)));
    assert!(!reg.add(b"a.rom".to_vec(), header(2)));
    assert_eq!(reg.len(), 1);
    assert_eq!(reg.lookup(b"a.rom").unwrap().target_size, 1);
    assert!(reg.lookup(b"b.rom").is_none());
}

#[test]
fn getattr_with_directory_handle_reports_root_attributes() {
    let mut e = engine_with(&[("a.rom", 10)]);
    let dh = e.opendir(b"/").unwrap();
    let (_, by_handle) = e.getattr(b"/", Some(dh)).unwrap();
    let (_, by_path) = e.getattr(b"/", None).unwrap();
    assert_eq!(by_handle, by_path);
    assert_eq!(by_handle.kind, FileKind::Directory);
}
