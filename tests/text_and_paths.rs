use sky_install::error::InstallError;
use sky_install::paths::{append_relative_path, ensure_subdir_exists, relative_parts, FsPath};
use sky_install::text::{chars_of, append_text, contains, same_text, starts_with};

fn parts(p: &FsPath) -> Vec<String> {
    let mut v = Vec::new();
    for i in 0..p.len() {
        v.push(p.part(i).to_string());
    }
    v
}

#[test]
fn error_keeps_its_message() {
    let e = InstallError::new("boom".to_string());
    assert_eq!(e.description(), "boom");
    assert_eq!(e.duplicate().description(), "boom");
}

#[test]
fn text_helpers() {
    assert_eq!(chars_of("héllo"), vec!['h', 'é', 'l', 'l', 'o']);
    assert!(starts_with("error: x", "error"));
    assert!(!starts_with("err", "error"));
    assert!(starts_with("abc", ""));
    assert!(contains("a build error here", "error"));
    assert!(contains("error", "error"));
    assert!(!contains("Finished release", "error"));
    assert!(!contains("", "error"));
    assert!(same_text("install", "install"));
    assert!(!same_text("install", "reinstall"));
    assert_eq!(append_text("ab", "cd"), "abcd");
}

#[test]
fn relative_parts_skip_empty_pieces() {
    assert_eq!(relative_parts("a/b/"), vec!["a".to_string(), "b".to_string()]);
    assert_eq!(relative_parts("//a//b/c.txt"), vec!["a".to_string(), "b".to_string(), "c.txt".to_string()]);
    assert!(relative_parts("").is_empty());
    assert!(relative_parts("///").is_empty());
}

#[test]
fn append_relative_path_pushes_each_part() {
    let base = FsPath::from_root("/home/u");
    let p = append_relative_path(base, "a/b/c.txt");
    assert_eq!(parts(&p), vec!["/home/u", "a", "b", "c.txt"]);
    let q = append_relative_path(FsPath::from_root("/x"), "/");
    assert_eq!(parts(&q), vec!["/x"]);
}

#[test]
fn ensure_subdir_exists_lists_each_level() {
    let dirs = ensure_subdir_exists(FsPath::from_root("/d"), "a/b/");
    assert_eq!(dirs.len(), 2);
    assert_eq!(parts(&dirs[0]), vec!["/d", "a"]);
    assert_eq!(parts(&dirs[1]), vec!["/d", "a", "b"]);
    assert!(ensure_subdir_exists(FsPath::from_root("/d"), "").is_empty());
}

#[test]
fn path_join_and_push() {
    let mut p = FsPath::from_root("/r");
    let q = p.join("x");
    p.push("y");
    assert_eq!(parts(&q), vec!["/r", "x"]);
    assert_eq!(parts(&p), vec!["/r", "y"]);
    assert_eq!(parts(&p.duplicate()), vec!["/r", "y"]);
}
