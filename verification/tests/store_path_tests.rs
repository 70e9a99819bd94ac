use colmena::error::HostError;
use colmena::store_path::{parse_store_paths, StorePath};
use colmena::text::{contains_str, join_lines, split_lines, str_eq};

#[test]
fn store_path_accepts_absolute_paths() {
    let p = StorePath::parse(String::from("/nix/store/abc-hello-1.0")).unwrap();
    assert_eq!(p.as_path(), "/nix/store/abc-hello-1.0");
}

#[test]
fn store_path_rejects_empty_input() {
    let r = StorePath::parse(String::new());
    assert!(matches!(r, Err(HostError::InvalidStorePath(_))));
}

#[test]
fn store_path_rejects_relative_input() {
    let r = StorePath::parse(String::from("nix/store/abc"));
    match r {
        Err(HostError::InvalidStorePath(l)) => assert_eq!(l, "nix/store/abc"),
        _ => panic!("a relative path must be rejected"),
    }
}

#[test]
fn parse_store_paths_collects_nonempty_lines() {
    let lines = vec![
        String::from("/nix/store/a"),
        String::new(),
        String::from("/nix/store/b"),
    ];
    let ps = parse_store_paths(lines).unwrap();
    let texts: Vec<&str> = ps.iter().map(|p| p.as_path()).collect();
    assert_eq!(texts, vec!["/nix/store/a", "/nix/store/b"]);
}

#[test]
fn parse_store_paths_fails_on_one_malformed_line() {
    let lines = vec![
        String::from("/nix/store/a"),
        String::from("garbage"),
        String::from("/nix/store/b"),
    ];
    let r = parse_store_paths(lines);
    assert!(matches!(r, Err(HostError::InvalidStorePath(_))));
}

#[test]
fn parse_store_paths_of_no_lines_is_empty() {
    let ps = parse_store_paths(Vec::new()).unwrap();
    assert!(ps.is_empty());
}

#[test]
fn split_lines_handles_trailing_newline() {
    let lines = split_lines("a\nb\n");
    assert_eq!(lines, vec![String::from("a"), String::from("b")]);
    let lines = split_lines("a\nb");
    assert_eq!(lines, vec![String::from("a"), String::from("b")]);
    let lines = split_lines("");
    assert!(lines.is_empty());
    let lines = split_lines("\n\n");
    assert_eq!(lines, vec![String::new(), String::new()]);
}

#[test]
fn join_lines_closes_every_line() {
    let joined = join_lines(&vec![String::from("a"), String::from("b")]);
    assert_eq!(joined, "a\nb\n");
    assert_eq!(join_lines(&Vec::new()), "");
}

#[test]
fn str_helpers_behave() {
    assert!(str_eq("abc", "abc"));
    assert!(!str_eq("abc", "abd"));
    assert!(!str_eq("abc", "abcd"));
    assert!(contains_str("ID=nixos\nVERSION=1", "ID=nixos\n"));
    assert!(!contains_str("ID=debian\n", "ID=nixos\n"));
    assert!(contains_str("anything", ""));
}
