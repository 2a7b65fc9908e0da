use pixi_install_to_prefix::mirror::{ensure_trailing_slash, mirror_entry, mirror_table, MirrorSource, ParsedUrl};

fn parsed(text: &str) -> ParsedUrl {
    ParsedUrl::parse(text).unwrap()
}

#[test]
fn slash_is_appended_to_the_last_segment() {
    let u = ensure_trailing_slash(&parsed("https://host/prefix")).unwrap();
    assert_eq!(u.serialization, "https://host/prefix/");
    assert_eq!(u.path, "/prefix/");
    let deep = ensure_trailing_slash(&parsed("https://host/a/b/c")).unwrap();
    assert_eq!(deep.serialization, "https://host/a/b/c/");
}

#[test]
fn slash_terminated_url_is_unchanged() {
    let u = parsed("https://host/prefix/");
    let n = ensure_trailing_slash(&u).unwrap();
    assert_eq!(n.serialization, u.serialization);
    assert_eq!(n.path, u.path);
    let again = ensure_trailing_slash(&n).unwrap();
    assert_eq!(again.serialization, "https://host/prefix/");
}

#[test]
fn bare_host_already_has_a_root_path() {
    let u = parsed("https://host");
    assert_eq!(u.path, "/");
    assert_eq!(ensure_trailing_slash(&u).unwrap().serialization, "https://host/");
}

#[test]
fn appending_differs_from_a_relative_join() {
    let joined = url::Url::parse("https://host/prefix").unwrap().join("sibling").unwrap();
    assert_eq!(joined.as_str(), "https://host/sibling");
    let normalized = ensure_trailing_slash(&parsed("https://host/prefix")).unwrap();
    let below = url::Url::parse(&normalized.serialization).unwrap().join("sibling").unwrap();
    assert_eq!(below.as_str(), "https://host/prefix/sibling");
}

#[test]
fn invalid_text_does_not_parse() {
    assert!(ParsedUrl::parse("not a url").is_none());
}

#[test]
fn mirror_table_normalizes_every_url() {
    let sources = vec![MirrorSource {
        origin: parsed("https://conda.anaconda.org/conda-forge"),
        mirrors: vec![parsed("https://mirror.example.com/cf"), parsed("s3://bucket/conda-forge/")],
    }];
    let table = mirror_table(&sources).unwrap();
    assert_eq!(table.len(), 1);
    assert_eq!(table[0].origin.serialization, "https://conda.anaconda.org/conda-forge/");
    assert_eq!(table[0].mirrors.len(), 2);
    assert_eq!(table[0].mirrors[0].url.serialization, "https://mirror.example.com/cf/");
    assert_eq!(table[0].mirrors[1].url.serialization, "s3://bucket/conda-forge/");
    for m in &table[0].mirrors {
        assert!(!m.no_zstd && !m.no_bz2 && m.max_failures.is_none());
    }
}

#[test]
fn empty_configuration_gives_empty_table() {
    assert_eq!(mirror_table(&Vec::new()).unwrap().len(), 0);
    let e = mirror_entry(&MirrorSource { origin: parsed("https://a.example/x"), mirrors: vec![] }).unwrap();
    assert_eq!(e.origin.serialization, "https://a.example/x/");
    assert!(e.mirrors.is_empty());
}
