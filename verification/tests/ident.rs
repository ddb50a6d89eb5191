use pkg_export::Error;
use pkg_export::PackageIdent;

fn ident(origin: &str, name: &str, version: Option<&str>, release: Option<&str>) -> PackageIdent {
    PackageIdent {
        origin: origin.to_string(),
        name: name.to_string(),
        version: version.map(|v| v.to_string()),
        release: release.map(|r| r.to_string()),
    }
}

#[test]
fn reads_origin_and_name() {
    assert_eq!(PackageIdent::from_str("core/redis"), Ok(ident("core", "redis", None, None)));
}

#[test]
fn reads_a_version() {
    assert_eq!(
        PackageIdent::from_str("core/redis/3.2.4"),
        Ok(ident("core", "redis", Some("3.2.4"), None))
    );
}

#[test]
fn reads_a_release() {
    assert_eq!(
        PackageIdent::from_str("core/redis/3.2.4/20170514150022"),
        Ok(ident("core", "redis", Some("3.2.4"), Some("20170514150022")))
    );
}

#[test]
fn keeps_empty_parts() {
    assert_eq!(PackageIdent::from_str("/"), Ok(ident("", "", None, None)));
    assert_eq!(PackageIdent::from_str("core/"), Ok(ident("core", "", None, None)));
    assert_eq!(PackageIdent::from_str("a//c"), Ok(ident("a", "", Some("c"), None)));
}

#[test]
fn refuses_a_single_part() {
    assert_eq!(
        PackageIdent::from_str("redis"),
        Err(Error::MalformedIdentifier("redis".to_string()))
    );
}

#[test]
fn refuses_the_empty_string() {
    assert_eq!(PackageIdent::from_str(""), Err(Error::MalformedIdentifier(String::new())));
}

#[test]
fn refuses_five_parts() {
    assert_eq!(
        PackageIdent::from_str("a/b/c/d/e"),
        Err(Error::MalformedIdentifier("a/b/c/d/e".to_string()))
    );
}

#[test]
fn reads_parts_beyond_ascii() {
    assert_eq!(
        PackageIdent::from_str("caf\u{e9}/na\u{ef}ve/1"),
        Ok(ident("caf\u{e9}", "na\u{ef}ve", Some("1"), None))
    );
}

#[test]
fn writes_each_form() {
    assert_eq!(ident("core", "redis", None, None).to_string(), "core/redis");
    assert_eq!(ident("core", "redis", Some("3.2.4"), None).to_string(), "core/redis/3.2.4");
    assert_eq!(
        ident("core", "redis", Some("3.2.4"), Some("20170514150022")).to_string(),
        "core/redis/3.2.4/20170514150022"
    );
}

#[test]
fn hides_a_release_without_a_version() {
    assert_eq!(ident("core", "redis", None, Some("20170514150022")).to_string(), "core/redis");
}

#[test]
fn string_form_reads_back() {
    for text in ["core/redis", "core/redis/3.2.4", "core/redis/3.2.4/20170514150022", "/", "a//"] {
        let read = PackageIdent::from_str(text).unwrap();
        assert_eq!(read.to_string(), text);
        assert_eq!(PackageIdent::from_str(&read.to_string()), Ok(read));
    }
}

#[test]
fn clone_keeps_every_part() {
    let first = ident("core", "redis", Some("3.2.4"), Some("20170514150022"));
    assert_eq!(first.clone(), first);
}
