use wasmer_install::paths::{join, last_segment};
use wasmer_install::text::{chars_of, contains, precedes, same_text};

#[test]
fn chars_of_keeps_every_character() {
    assert_eq!(chars_of("a/é"), vec!['a', '/', 'é']);
    assert_eq!(chars_of(""), Vec::<char>::new());
}

#[test]
fn contains_finds_a_token_anywhere() {
    assert!(contains("wasmer-linux-amd64.tar.gz", "linux"));
    assert!(contains("wasmer-linux-amd64.tar.gz", "wasmer"));
    assert!(contains("wasmer-linux-amd64.tar.gz", ".gz"));
    assert!(!contains("wasmer-linux-amd64.tar.gz", "musl"));
    assert!(!contains("wasmer-linux-amd64.tar.gz", "linuxx"));
}

#[test]
fn contains_empty_needle() {
    assert!(contains("abc", ""));
    assert!(contains("", ""));
    assert!(!contains("", "a"));
}

#[test]
fn contains_needle_longer_than_text() {
    assert!(!contains("mus", "musl"));
    assert!(contains("musl", "musl"));
}

#[test]
fn contains_agrees_with_std() {
    let texts = ["", "a", "ab", "aab", "abab", "x86_64", "aarch64-darwin", "日本語"];
    for hay in texts {
        for needle in texts {
            assert_eq!(contains(hay, needle), hay.contains(needle), "{hay:?} {needle:?}");
        }
    }
}

#[test]
fn precedes_is_plain_string_order() {
    assert!(precedes("v1.0.0", "v1.0.1"));
    assert!(!precedes("v1.0.1", "v1.0.0"));
    assert!(precedes("v10.0.0", "v9.0.0"));
    assert!(precedes("v1", "v1.0"));
    assert!(!precedes("v1", "v1"));
    assert!(precedes("", "a"));
    assert!(!precedes("a", ""));
}

#[test]
fn precedes_agrees_with_std() {
    let texts = ["", "a", "ab", "b", "B", "v2.3.0", "v2.10.0", "2.3.0", "é", "z", "日本"];
    for a in texts {
        for b in texts {
            assert_eq!(precedes(a, b), a < b, "{a:?} {b:?}");
        }
    }
}

#[test]
fn same_text_compares_whole_texts() {
    assert!(same_text("linux", "linux"));
    assert!(!same_text("linux", "linu"));
    assert!(!same_text("linux", "linuy"));
    assert!(same_text("", ""));
}

#[test]
fn join_puts_one_separator_between() {
    assert_eq!(join("/home/alice", ".wasmer"), "/home/alice/.wasmer");
    assert_eq!(join("/home/alice/", ".wasmer"), "/home/alice/.wasmer");
    assert_eq!(join("/", "bin"), "/bin");
    assert_eq!(join("rel", "a/b"), "rel/a/b");
}

#[test]
fn join_with_empty_base_is_relative() {
    assert_eq!(join("", "bin/wasmer"), "bin/wasmer");
    assert_eq!(join("", ""), "");
}

#[test]
fn join_stays_below_the_base() {
    assert_eq!(join("/opt/e", "/etc/passwd"), "/opt/e//etc/passwd");
    assert_eq!(join("/opt/e", ""), "/opt/e/");
}

#[test]
fn last_segment_follows_the_last_separator() {
    assert_eq!(last_segment("https://host/a/b/wasmer.tar.gz"), "wasmer.tar.gz");
    assert_eq!(last_segment("wasmer.tar.gz"), "wasmer.tar.gz");
    assert_eq!(last_segment("a/b/"), "");
    assert_eq!(last_segment("/"), "");
    assert_eq!(last_segment(""), "");
}

#[test]
fn last_segment_agrees_with_split() {
    for url in ["", "a", "a/", "/a", "a//b", "http://x/y/z.tgz", "é/ü"] {
        assert_eq!(last_segment(url), url.split('/').last().unwrap(), "{url:?}");
    }
}
