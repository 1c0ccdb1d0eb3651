use checklints::remote::RemoteFile;

#[test]
fn parses_pinned_reference() {
    let r = RemoteFile::parse("https://example.com/checklists/base.toml::abc123").unwrap();
    let u = r.url();
    assert_eq!(u.scheme(), "https");
    assert_eq!(u.host(), "example.com");
    assert_eq!(u.port(), None);
    assert_eq!(u.path().map(|p| p.as_str()), Some("/checklists/base.toml"));
    assert!(u.fragment().is_none());
    assert_eq!(u.to_text(), "https://example.com/checklists/base.toml");
    assert_eq!(r.hash().map(|h| h.as_str()), Some("abc123"));
    assert_eq!(u.name(), "base.toml");
}

#[test]
fn parses_port_and_fragment() {
    let r = RemoteFile::parse("http://host:8080/a/b.toml#frag::ff").unwrap();
    assert_eq!(r.url().port(), Some(8080));
    assert_eq!(r.url().fragment().map(|f| f.as_str()), Some("frag"));
    assert_eq!(r.url().to_text(), "http://host:8080/a/b.toml#frag");
    assert_eq!(r.hash().map(|h| h.as_str()), Some("ff"));
    assert_eq!(r.url().name(), "b.toml");
}

#[test]
fn name_falls_back_to_host() {
    let r = RemoteFile::parse("https://example.com").unwrap();
    assert_eq!(r.url().name(), "example.com");
    assert!(r.hash().is_none());
}

#[test]
fn rejects_missing_scheme() {
    assert!(RemoteFile::parse("example.com/base.toml").is_err());
    assert!(RemoteFile::parse("://example.com").is_err());
}

#[test]
fn rejects_empty_host_and_query() {
    assert!(RemoteFile::parse("https:///path").is_err());
    assert!(RemoteFile::parse("https://example.com/a?b=c").is_err());
}

#[test]
fn rejects_port_out_of_range() {
    assert!(RemoteFile::parse("https://h:99999999999/x").is_err());
}

#[test]
fn reference_text_round_trips() {
    let text = "http://host:8080/a/b.toml#frag::ff";
    assert_eq!(RemoteFile::parse(text).unwrap().to_text(), text);
    let plain = "https://example.com/base.toml";
    assert_eq!(RemoteFile::parse(plain).unwrap().to_text(), plain);
}
