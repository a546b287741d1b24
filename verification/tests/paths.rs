use decofs::deco::DecoFS;

fn bytes(s: &str) -> Vec<u8> {
    s.as_bytes().to_vec()
}

#[test]
fn real_path_joins_root_and_file() {
    let fs = DecoFS::new(bytes("/data"));
    assert_eq!(fs.real_path(&bytes("/notes.txt")), bytes("/data/notes.txt"));
}

#[test]
fn real_path_of_nested_path() {
    let fs = DecoFS::new(bytes("/srv/export"));
    assert_eq!(fs.real_path(&bytes("/a/b/c.bin")), bytes("/srv/export/a/b/c.bin"));
}

#[test]
fn real_path_of_root_is_sourceroot_with_separator() {
    let fs = DecoFS::new(bytes("/data"));
    assert_eq!(fs.real_path(&bytes("/")), bytes("/data/"));
}

#[test]
fn real_path_under_root_with_trailing_separator() {
    let fs = DecoFS::new(bytes("/data/"));
    assert_eq!(fs.real_path(&bytes("/notes.txt")), bytes("/data/notes.txt"));
    assert_eq!(fs.real_path(&bytes("/")), bytes("/data/"));
}

#[test]
fn real_path_under_filesystem_root() {
    let fs = DecoFS::new(bytes("/"));
    assert_eq!(fs.real_path(&bytes("/etc/hosts")), bytes("/etc/hosts"));
}

#[test]
fn real_path_under_empty_root() {
    let fs = DecoFS::new(Vec::new());
    assert_eq!(fs.real_path(&bytes("/notes.txt")), bytes("notes.txt"));
}

#[test]
fn real_path_strips_exactly_one_separator() {
    let fs = DecoFS::new(bytes("/data"));
    assert_eq!(fs.real_path(&bytes("//notes.txt")), bytes("/data//notes.txt"));
}

#[test]
fn real_path_keeps_bytes_that_are_not_text() {
    let fs = DecoFS::new(vec![b'/', 0xff, 0xfe]);
    assert_eq!(
        fs.real_path(&vec![b'/', 0x80, b'x']),
        vec![b'/', 0xff, 0xfe, b'/', 0x80, b'x']
    );
}

#[test]
fn real_path_begins_with_sourceroot() {
    let root = bytes("/data/tree");
    let fs = DecoFS::new(root.clone());
    for p in ["/", "/a", "/a/b", "/../escape", "//x"] {
        let real = fs.real_path(&bytes(p));
        assert!(real.starts_with(&root));
        assert!(real.ends_with(&p.as_bytes()[1..]));
    }
}

#[test]
fn sourceroot_is_what_was_given() {
    let fs = DecoFS::new(bytes("/data"));
    assert_eq!(fs.sourceroot(), &bytes("/data"));
}

#[test]
fn path_is_absolute_looks_at_first_byte() {
    assert!(DecoFS::path_is_absolute(&bytes("/")));
    assert!(DecoFS::path_is_absolute(&bytes("/a/b")));
    assert!(!DecoFS::path_is_absolute(&bytes("a/b")));
    assert!(!DecoFS::path_is_absolute(&bytes("./a")));
    assert!(!DecoFS::path_is_absolute(&Vec::new()));
}

#[test]
fn join_puts_one_separator_between() {
    assert_eq!(DecoFS::join(&bytes("/data"), b"x"), bytes("/data/x"));
    assert_eq!(DecoFS::join(&bytes("/data/"), b"x"), bytes("/data/x"));
    assert_eq!(DecoFS::join(&bytes("/data"), b""), bytes("/data/"));
    assert_eq!(DecoFS::join(&Vec::new(), b"x"), bytes("x"));
    assert_eq!(DecoFS::join(&Vec::new(), b""), Vec::<u8>::new());
}

#[test]
fn entry_path_joins_name_onto_directory() {
    assert_eq!(
        DecoFS::entry_path(&bytes("/data/sub"), &bytes("file.txt")),
        bytes("/data/sub/file.txt")
    );
    assert_eq!(DecoFS::entry_path(&bytes("/data/"), &bytes("a")), bytes("/data/a"));
}
