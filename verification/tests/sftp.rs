use async_ssh2_lite::error::{EngineError, Error, LIBSSH2_ERROR_FILE};
use async_ssh2_lite::sftp::{join_path, name_is_pseudo, readdir, FileStat};

fn stat(size: u64) -> FileStat {
    FileStat { size: Some(size), uid: None, gid: None, perm: None, atime: None, mtime: None }
}

fn entry(name: &str, size: u64) -> Result<(String, FileStat), EngineError> {
    Ok((name.to_owned(), stat(size)))
}

fn end_of_listing() -> Result<(String, FileStat), EngineError> {
    Err(EngineError::new(LIBSSH2_ERROR_FILE, "no such file".to_owned()))
}

#[test]
fn pseudo_entries() {
    assert!(name_is_pseudo(&".".to_owned()));
    assert!(name_is_pseudo(&"..".to_owned()));
    assert!(!name_is_pseudo(&"...".to_owned()));
    assert!(!name_is_pseudo(&"a".to_owned()));
    assert!(!name_is_pseudo(&"".to_owned()));
}

#[test]
fn join_adds_a_separator_only_where_needed() {
    assert_eq!(join_path("remote", "a.txt"), "remote/a.txt");
    assert_eq!(join_path("remote/", "a.txt"), "remote/a.txt");
    assert_eq!(join_path("/var/log", "syslog"), "/var/log/syslog");
    assert_eq!(join_path("", "a.txt"), "a.txt");
}

#[test]
fn listing_keeps_exactly_the_regular_entries() {
    // A directory listing yields `.`, `..` and three regular entries,
    // then the no-entry-left code: exactly the three are returned, with
    // full paths joined to the queried directory.
    let outcomes = vec![
        entry(".", 0),
        entry("..", 0),
        entry("a.txt", 10),
        entry("b.txt", 20),
        entry("c.txt", 30),
        end_of_listing(),
    ];
    let entries = readdir("remote", &outcomes).unwrap();
    assert_eq!(entries.len(), 3);
    assert_eq!(entries[0].0, "remote/a.txt");
    assert_eq!(entries[1].0, "remote/b.txt");
    assert_eq!(entries[2].0, "remote/c.txt");
    assert_eq!(entries[0].1.size, Some(10));
    assert_eq!(entries[1].1.size, Some(20));
    assert_eq!(entries[2].1.size, Some(30));
}

#[test]
fn pseudo_entries_anywhere_are_skipped() {
    let outcomes = vec![
        entry("a", 1),
        entry(".", 0),
        entry("b", 2),
        entry("..", 0),
        end_of_listing(),
    ];
    let entries = readdir("d", &outcomes).unwrap();
    assert_eq!(entries.len(), 2);
    assert_eq!(entries[0].0, "d/a");
    assert_eq!(entries[1].0, "d/b");
}

#[test]
fn empty_directory_lists_nothing() {
    let outcomes = vec![entry(".", 0), entry("..", 0), end_of_listing()];
    let entries = readdir("remote", &outcomes).unwrap();
    assert!(entries.is_empty());
}

#[test]
fn a_real_error_is_surfaced_not_swallowed() {
    // Any error other than the no-entry-left code aborts the listing
    // and reaches the caller with its code intact.
    let outcomes = vec![
        entry("a", 1),
        Err(EngineError::new(-31, "SFTP protocol error".to_owned())),
        entry("b", 2),
    ];
    match readdir("remote", &outcomes) {
        Err(Error::Ssh2(e)) => {
            assert_eq!(e.code, -31);
            assert_eq!(e.msg, "SFTP protocol error");
        }
        _ => panic!("a genuine listing error must be surfaced"),
    }
}

#[test]
fn listing_cut_short_is_taken_as_complete() {
    let outcomes = vec![entry("a", 1)];
    let entries = readdir("remote", &outcomes).unwrap();
    assert_eq!(entries.len(), 1);
    assert_eq!(entries[0].0, "remote/a");
}
