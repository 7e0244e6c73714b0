use gh_participants::args::{make_requests, parse_args, parse_repository, NUM_NODES};
use gh_participants::error::ErrorKind;

fn strings(v: &[&str]) -> Vec<String> {
    v.iter().map(|s| s.to_string()).collect()
}

#[test]
fn parses_one_repository() {
    let repos = parse_args(&strings(&["octocat/Hello-World"])).unwrap();
    assert_eq!(repos.len(), 1);
    assert_eq!(repos[0].owner, "octocat");
    assert_eq!(repos[0].name, "Hello-World");
}

#[test]
fn missing_slash_is_bad_args() {
    let e = parse_args(&strings(&["badstring"])).unwrap_err();
    assert!(matches!(e.kind(), ErrorKind::BadArgs));
    assert_eq!(e.context(), "Parsing repository (badstring)");
}

#[test]
fn empty_input_is_bad_args() {
    let e = parse_args(&Vec::new()).unwrap_err();
    assert!(matches!(e.kind(), ErrorKind::BadArgs));
    assert_eq!(e.context(), "No arguments found");
}

#[test]
fn segments_must_be_two_and_non_empty() {
    for bad in ["a/b/c", "/b", "a/", "/", ""] {
        assert!(parse_repository(bad).is_none(), "{}", bad);
    }
    let ok = parse_repository("rust-lang/rust").unwrap();
    assert_eq!((ok.owner.as_str(), ok.name.as_str()), ("rust-lang", "rust"));
}

#[test]
fn one_bad_argument_fails_all() {
    let e = parse_args(&strings(&["a/b", "c"])).unwrap_err();
    assert!(matches!(e.kind(), ErrorKind::BadArgs));
}

#[test]
fn requests_start_without_cursor() {
    let qs = make_requests(&strings(&["a/b", "c/d"])).unwrap();
    assert_eq!(qs.len(), 2);
    assert_eq!(qs[1].variables.owner, "c");
    assert_eq!(qs[1].variables.name, "d");
    assert_eq!(qs[0].variables.nnodes, NUM_NODES);
    assert!(qs.iter().all(|q| q.variables.pullcursor.is_none()));
    let e = make_requests(&strings(&["a/b", "nope", "x"])).unwrap_err();
    assert!(matches!(e.kind(), ErrorKind::BadArgs));
    assert_eq!(e.context(), "Parsing repository (nope)");
}
