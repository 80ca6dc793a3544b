use quic_events::strutil::{
    ensure_trailing_newline, set_txt_ext, str_ends_with, str_has_scheme, str_starts_with,
    trim_end_matches_rep,
};
use quic_events::target::{canonical_url, Format, Target, TargetError, TargetPath};

#[test]
fn plain_path_stays_a_path() {
    let t = TargetPath::from_str(&String::from("rfc/rfc9000.txt")).unwrap();
    match t {
        TargetPath::Path(p) => assert_eq!(p, "rfc/rfc9000.txt"),
        TargetPath::Url(_) => panic!("classified as URL"),
    }
}

#[test]
fn absolute_path_stays_a_path() {
    let t = TargetPath::from_str(&String::from("/etc/spec.txt")).unwrap();
    match t {
        TargetPath::Path(p) => assert_eq!(p, "/etc/spec.txt"),
        TargetPath::Url(_) => panic!("classified as URL"),
    }
}

#[test]
fn url_target_is_parsed_into_parts() {
    let t = TargetPath::from_str(&String::from("https://Example.COM/a/b.txt")).unwrap();
    match t {
        TargetPath::Url(u) => {
            // The url crate normalizes the host to lower case: the parts are
            // not the input handed back unchanged.
            assert_eq!(u.text, "https://example.com/a/b.txt");
            assert_eq!(u.host.as_deref(), Some("example.com"));
            assert_eq!(u.segments, Some(vec!["a".to_string(), "b.txt".to_string()]));
        }
        TargetPath::Path(_) => panic!("classified as path"),
    }
}

#[test]
fn bad_url_is_rejected() {
    let r = TargetPath::from_str(&String::from("://missing-scheme"));
    assert_eq!(r.unwrap_err(), TargetError::InvalidUrl);
}

#[test]
fn target_takes_default_format() {
    let t = Target::from_str(&String::from("notes.md")).unwrap();
    assert_eq!(t.format, Format::Auto);
    match t.path {
        TargetPath::Path(p) => assert_eq!(p, "notes.md"),
        TargetPath::Url(_) => panic!("classified as URL"),
    }
}

#[test]
fn to_text_shows_normalized_url() {
    let t = TargetPath::from_str(&String::from("https://example.com/x")).unwrap();
    assert_eq!(t.to_text(), "https://example.com/x");
    let p = TargetPath::from_str(&String::from("a/b")).unwrap();
    assert_eq!(p.to_text(), "a/b");
}

#[test]
fn local_of_path_is_the_path() {
    let p = TargetPath::from_str(&String::from("specs/x.txt")).unwrap();
    assert_eq!(p.local(), vec!["specs/x.txt".to_string()]);
}

#[test]
fn local_of_url_is_host_and_segments() {
    let t = TargetPath::from_str(&String::from("https://www.rfc-editor.org/rfc/rfc9000.html"))
        .unwrap();
    assert_eq!(
        t.local(),
        vec![
            "specs".to_string(),
            "www.rfc-editor.org".to_string(),
            "rfc".to_string(),
            "rfc9000.txt".to_string(),
        ]
    );
}

#[test]
fn local_adds_extension_when_none() {
    let t = TargetPath::from_str(&String::from("https://example.com/doc/readme")).unwrap();
    assert_eq!(
        t.local(),
        vec![
            "specs".to_string(),
            "example.com".to_string(),
            "doc".to_string(),
            "readme.txt".to_string(),
        ]
    );
}

#[test]
fn canonical_url_rewrites_ietf_tools() {
    assert_eq!(
        canonical_url("https://tools.ietf.org/rfc/rfc2324.txt"),
        "https://www.rfc-editor.org/rfc/rfc2324.txt"
    );
    assert_eq!(
        canonical_url("https://tools.ietf.org/rfc/rfc2324.html"),
        "https://www.rfc-editor.org/rfc/rfc2324.txt"
    );
    assert_eq!(
        canonical_url("https://tools.ietf.org/rfc/rfc2324"),
        "https://www.rfc-editor.org/rfc/rfc2324.txt"
    );
}

#[test]
fn canonical_url_normalizes_rfc_editor() {
    assert_eq!(
        canonical_url("https://www.rfc-editor.org/rfc/rfc9000.html"),
        "https://www.rfc-editor.org/rfc/rfc9000.txt"
    );
    assert_eq!(
        canonical_url("https://www.rfc-editor.org/rfc/rfc9000"),
        "https://www.rfc-editor.org/rfc/rfc9000.txt"
    );
}

#[test]
fn canonical_url_leaves_other_urls_alone() {
    assert_eq!(canonical_url("https://example.com/spec.html"), "https://example.com/spec.html");
}

#[test]
fn scheme_detection() {
    assert!(str_has_scheme("https://x"));
    assert!(str_has_scheme("a://"));
    assert!(!str_has_scheme("a:/b/c"));
    assert!(!str_has_scheme(""));
    assert!(!str_has_scheme("::"));
}

#[test]
fn prefix_and_suffix_tests() {
    assert!(str_starts_with("hello", "he"));
    assert!(!str_starts_with("he", "hello"));
    assert!(str_ends_with("hello", "lo"));
    assert!(!str_ends_with("lo", "hello"));
    assert!(str_starts_with("hello", ""));
    assert!(str_ends_with("hello", ""));
}

#[test]
fn trim_removes_repeated_suffixes() {
    assert_eq!(trim_end_matches_rep("rfc1.txt.txt", ".txt"), "rfc1");
    assert_eq!(trim_end_matches_rep("rfc1.html", ".txt"), "rfc1.html");
    assert_eq!(trim_end_matches_rep("x", "y"), "x");
}

#[test]
fn txt_extension_replacement() {
    assert_eq!(set_txt_ext("rfc9000.html"), "rfc9000.txt");
    assert_eq!(set_txt_ext("rfc9000"), "rfc9000.txt");
    assert_eq!(set_txt_ext("archive.tar.gz"), "archive.tar.txt");
    assert_eq!(set_txt_ext(".hidden"), ".hidden.txt");
    assert_eq!(set_txt_ext(""), ".txt");
}

#[test]
fn newline_termination() {
    assert_eq!(ensure_trailing_newline("abc".to_string()), "abc\n");
    assert_eq!(ensure_trailing_newline("abc\n".to_string()), "abc\n");
    assert_eq!(ensure_trailing_newline(String::new()), "\n");
}

#[test]
fn annotation_absolute_target_keeps_its_path() {
    let t = TargetPath::from_annotation(
        &String::from("/specs/http.txt"),
        &String::from("unused"),
    )
    .unwrap();
    match t {
        TargetPath::Path(p) => assert_eq!(p, "/specs/http.txt"),
        TargetPath::Url(_) => panic!("classified as URL"),
    }
}

#[test]
fn annotation_relative_target_takes_resolved_path() {
    let t = TargetPath::from_annotation(
        &String::from("memo.md"),
        &String::from("docs/memo.md"),
    )
    .unwrap();
    match t {
        TargetPath::Path(p) => assert_eq!(p, "docs/memo.md"),
        TargetPath::Url(_) => panic!("classified as URL"),
    }
}

#[test]
fn annotation_url_target_is_parsed() {
    let t = TargetPath::from_annotation(
        &String::from("https://example.com/s"),
        &String::from("unused"),
    )
    .unwrap();
    match t {
        TargetPath::Url(u) => assert_eq!(u.text, "https://example.com/s"),
        TargetPath::Path(_) => panic!("classified as path"),
    }
}

#[test]
fn annotation_target_with_format() {
    let t = Target::from_annotation(
        &String::from("/a/b"),
        &String::from("unused"),
        Format::Ietf,
    )
    .unwrap();
    assert_eq!(t.format, Format::Ietf);
    match t.path {
        TargetPath::Path(p) => assert_eq!(p, "/a/b"),
        TargetPath::Url(_) => panic!("classified as URL"),
    }
}

#[test]
fn annotation_bad_url_is_rejected() {
    let r = TargetPath::from_annotation(
        &String::from("http://"),
        &String::from("unused"),
    );
    assert_eq!(r.unwrap_err(), TargetError::InvalidUrl);
}
