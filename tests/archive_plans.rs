use std::io::{Cursor, Write};
use sky_install::archive::{plan_extraction, unzip_file, ArchiveEntry};
use sky_install::ops::Op;
use sky_install::paths::FsPath;
use zip::write::FileOptions;
use zip::{CompressionMethod, ZipWriter};

fn parts(p: &FsPath) -> Vec<String> {
    let mut v = Vec::new();
    for i in 0..p.len() {
        v.push(p.part(i).to_string());
    }
    v
}

fn dir_entry() -> ArchiveEntry {
    ArchiveEntry { name: "a/b/".to_string(), size: 0, data: Vec::new() }
}

fn file_entry() -> ArchiveEntry {
    ArchiveEntry { name: "a/b/c.txt".to_string(), size: 1, data: b"x".to_vec() }
}

/// The directories and files the operations leave behind.
fn outcome(ops: &[Op]) -> (Vec<Vec<String>>, Vec<(Vec<String>, Vec<u8>)>) {
    let mut dirs: Vec<Vec<String>> = Vec::new();
    let mut files = Vec::new();
    for op in ops {
        match op {
            Op::EnsureDir(p) => {
                let ps = parts(p);
                for k in 1..=ps.len() {
                    let d = ps[..k].to_vec();
                    if !dirs.contains(&d) {
                        dirs.push(d);
                    }
                }
            }
            Op::WriteFile(p, data) => files.push((parts(p), data.clone())),
            other => panic!("unexpected {:?}", other),
        }
    }
    dirs.sort();
    files.sort();
    (dirs, files)
}

#[test]
fn extraction_does_not_depend_on_entry_order() {
    let dest = FsPath::from_root("/d");
    let forward = plan_extraction(&dest, &vec![dir_entry(), file_entry()]);
    let backward = plan_extraction(&dest, &vec![file_entry(), dir_entry()]);
    let (dirs, files) = outcome(&forward);
    assert!(dirs.contains(&vec!["/d".to_string(), "a".to_string(), "b".to_string()]));
    assert_eq!(
        files,
        vec![(vec!["/d".to_string(), "a".to_string(), "b".to_string(), "c.txt".to_string()], b"x".to_vec())]
    );
    assert_eq!(outcome(&backward), (dirs, files));
}

#[test]
fn file_entries_make_their_parent_first() {
    let dest = FsPath::from_root("/d");
    let ops = plan_extraction(&dest, &vec![file_entry()]);
    assert_eq!(ops.len(), 2);
    match &ops[0] {
        Op::EnsureDir(p) => assert_eq!(parts(p), vec!["/d", "a", "b"]),
        o => panic!("{:?}", o),
    }
    let none = plan_extraction(&dest, &vec![ArchiveEntry { name: "/".to_string(), size: 3, data: b"abc".to_vec() }]);
    assert!(none.is_empty());
    assert!(plan_extraction(&dest, &Vec::new()).is_empty());
}

fn sample_zip() -> Vec<u8> {
    let mut w = ZipWriter::new(Cursor::new(Vec::new()));
    let opts = FileOptions::default().compression_method(CompressionMethod::Stored);
    w.add_directory("a/b/", opts).unwrap();
    w.start_file("a/b/c.txt", opts).unwrap();
    w.write_all(b"x").unwrap();
    w.finish().unwrap().into_inner()
}

#[test]
fn unzip_reads_entries_from_archive_bytes() {
    let dest = FsPath::from_root("/d");
    let ops = unzip_file(&dest, sample_zip()).unwrap();
    let (dirs, files) = outcome(&ops);
    assert!(dirs.contains(&vec!["/d".to_string(), "a".to_string(), "b".to_string()]));
    assert_eq!(
        files,
        vec![(vec!["/d".to_string(), "a".to_string(), "b".to_string(), "c.txt".to_string()], b"x".to_vec())]
    );
}

#[test]
fn unzip_rejects_bytes_that_are_not_an_archive() {
    let dest = FsPath::from_root("/d");
    let e = unzip_file(&dest, b"not a zip".to_vec()).unwrap_err();
    let expected = zip::ZipArchive::new(Cursor::new(b"not a zip".to_vec())).unwrap_err().to_string();
    assert!(!expected.is_empty());
    assert_eq!(e.description(), expected);
}
