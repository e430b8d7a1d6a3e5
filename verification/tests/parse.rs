use infer_dispatch::error::RepoParseError;
use infer_dispatch::repo::parse_repo_string;

#[test]
fn parses_plain_identifier() {
    let parsed = parse_repo_string("org/modelA").unwrap();
    assert_eq!(parsed.0, "org/modelA");
    assert_eq!(parsed.1, "main");
}

#[test]
fn parses_identifier_with_revision() {
    let parsed = parse_repo_string("org/modelA:refs/pr/21").unwrap();
    assert_eq!(parsed.0, "org/modelA");
    assert_eq!(parsed.1, "refs/pr/21");
}

#[test]
fn keeps_later_colons_inside_the_revision() {
    let parsed = parse_repo_string("org/m:rev:x").unwrap();
    assert_eq!(parsed.0, "org/m");
    assert_eq!(parsed.1, "rev:x");
}

#[test]
fn rejects_malformed_identifiers() {
    let bad_inputs = [
        "",
        "modelA",
        "/modelA",
        "org/",
        "a/b/c",
        "org/m:",
        ":rev",
        "org:rev",
        "/",
    ];
    for bad in bad_inputs {
        let parsed = parse_repo_string(bad);
        assert!(matches!(parsed, Err(RepoParseError::Malformed)), "{bad}");
    }
}
