use gh_participants::error::{Error, ErrorKind};

#[test]
fn error_keeps_context_and_kind() {
    let e = Error::new("Creating reqwest::Client.", ErrorKind::NoToken);
    assert_eq!(e.context(), "Creating reqwest::Client.");
    assert!(matches!(e.kind(), ErrorKind::NoToken));
}

#[test]
fn error_message_per_kind() {
    assert_eq!(
        Error::new("x", ErrorKind::BadArgs).message(),
        "Called with bad arguments: x"
    );
    assert_eq!(Error::new("y", ErrorKind::EmptyData).message(), "Unexpectedly empty data: y");
    assert!(Error::new("u", ErrorKind::NoToken).message().contains("GITHUB_API_TOKEN"));
}

#[test]
fn error_carries_outside_errors() {
    let json = serde_json::from_str::<i32>("not json").unwrap_err();
    let e = Error::new("z", ErrorKind::Json(json));
    assert_eq!(e.message(), "Serde JSON error: z");
    assert!(matches!(e.kind(), ErrorKind::Json(j) if j.is_syntax()));

    let io = std::io::Error::new(std::io::ErrorKind::NotFound, "gone");
    let e = Error::new("w", ErrorKind::Io(io));
    assert_eq!(e.message(), "IO error: w");
    assert!(matches!(e.kind(), ErrorKind::Io(i) if i.kind() == std::io::ErrorKind::NotFound));

    let reqw = reqwest::Client::new().get("not a url").build().unwrap_err();
    let e = Error::new("v", ErrorKind::Reqwest(reqw));
    assert_eq!(e.message(), "Reqwest error: v");
    assert!(matches!(e.kind(), ErrorKind::Reqwest(r) if r.is_builder()));
}
