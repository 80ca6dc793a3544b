//! Specification targets: a documentation target is either a local file
//! path or a URL. A target string is classified by whether it holds a
//! scheme separator; well-known IETF URL forms are canonicalized to a
//! stable document-source URL; and a URL target maps to a deterministic
//! host/path-derived location where fetched text is cached. Reading and
//! fetching themselves are a caller's concern: this module only decides and
//! computes.

use vstd::prelude::*;
use crate::strutil::{
    has_scheme, seq_starts_with, set_txt_ext, set_txt_extension, str_has_scheme, str_starts_with,
    trim_end_matches_rep, trim_suffix_rep,
};

verus! {

/// How a specification document's text is to be read by its consumer;
/// carried beside the path and otherwise opaque to this module.
#[derive(Clone, Copy, Debug, PartialEq, Eq, Structural)]
pub enum Format {
    /// Decide from the document itself.
    Auto,
    /// IETF-style section structure.
    Ietf,
}

impl Default for Format {
    /// The format chosen when a target string names none.
    fn default() -> (r: Format)
        ensures
            r == Format::Auto,
    {
        Format::Auto
    }
}

/// Why a target string was rejected.
#[derive(Clone, Copy, Debug, PartialEq, Eq, Structural)]
pub enum TargetError {
    /// The string holds a scheme separator but is not a well-formed
    /// absolute URL.
    InvalidUrl,
}

/// The parts of a parsed URL that this module reads, as plain values: its
/// normalized serialization, its host when it has one, and its path
/// segments when it can be a base.
#[derive(Debug)]
pub struct UrlParts {
    /// The URL's normalized serialization.
    pub text: String,
    /// The URL's host, absent for URLs that have none.
    pub host: Option<String>,
    /// The URL's path segments, absent for URLs that cannot be a base.
    pub segments: Option<Vec<String>>,
}

/// Where a specification target lives: behind a URL, or in a file.
#[derive(Debug)]
pub enum TargetPath {
    /// A URL target, held as the parts this module reads.
    Url(UrlParts),
    /// A local file path, absolute or relative.
    Path(String),
}

/// A specification target: its location and its format.
#[derive(Debug)]
pub struct Target {
    /// Where the document lives.
    pub path: TargetPath,
    /// How the document is to be read.
    pub format: Format,
}

/// Whether url::Url::parse accepts `s` as an absolute URL; a pure function
/// of the string.
pub uninterp spec fn url_parse_ok(s: Seq<char>) -> bool;

/// The normalized serialization url::Url::as_str returns for a URL parsed
/// from `s`; a pure function of the string.
pub uninterp spec fn url_text_of(s: Seq<char>) -> Seq<char>;

/// The host url::Url::host_str returns for a URL parsed from `s`, `None`
/// when the URL has no host; a pure function of the string.
pub uninterp spec fn url_host_of(s: Seq<char>) -> Option<Seq<char>>;

/// The path segments url::Url::path_segments returns for a URL parsed from
/// `s`, `None` for URLs that cannot be a base; a pure function of the
/// string.
pub uninterp spec fn url_segments_of(s: Seq<char>) -> Option<Seq<Seq<char>>>;

/// The view of an optional owned string.
pub open spec fn opt_str_view(o: Option<String>) -> Option<Seq<char>> {
    match o {
        Some(s) => Some(s@),
        None => None,
    }
}

/// The view of an optional list of owned strings.
pub open spec fn opt_segs_view(o: Option<Vec<String>>) -> Option<Seq<Seq<char>>> {
    match o {
        Some(v) => Some(v@.map_values(|x: String| x@)),
        None => None,
    }
}

/// Relies on url::Url::parse to accept or reject the string, and, on a
/// parsed URL, on Url::as_str for the normalized serialization, on
/// Url::host_str for the host, and on Url::path_segments for the path
/// segments. Each is a pure function of the input string alone, so the
/// four results bear names.
#[verifier::external_body]
fn parse_url(s: &str) -> (r: Option<UrlParts>)
    ensures
        r is Some <==> url_parse_ok(s@),
        r matches Some(p) ==> p.text@ == url_text_of(s@),
        r matches Some(p) ==> opt_str_view(p.host) == url_host_of(s@),
        r matches Some(p) ==> opt_segs_view(p.segments) == url_segments_of(s@),
{
    match url::Url::parse(s) {
        Ok(u) => {
            let host = u.host_str().map(|h| h.to_string());
            let segments = u.path_segments().map(|it| it.map(|x| x.to_string()).collect());
            Some(UrlParts { text: u.as_str().to_string(), host, segments })
        },
        Err(_) => None,
    }
}

/// Whether the parts carry both a host and path segments, the facts the
/// cache location is derived from.
pub open spec fn locatable(u: UrlParts) -> bool {
    u.host is Some && u.segments is Some
}

/// The components of the cache location, relative to the consumer's working
/// directory: `specs`, then the host, then the path segments with the last
/// one's extension replaced by `txt`. With no segments at all the
/// replacement falls on the host component.
pub open spec fn spec_cache_components(host: Seq<char>, segs: Seq<Seq<char>>) -> Seq<Seq<char>> {
    if segs.len() == 0 {
        seq!["specs"@, set_txt_extension(host)]
    } else {
        seq!["specs"@, host] + segs.update(segs.len() - 1, set_txt_extension(segs.last()))
    }
}

/// The IETF tools URL prefix that is rewritten to the RFC editor's
/// document source.
pub open spec fn ietf_tools_prefix() -> Seq<char> {
    "https://tools.ietf.org/rfc/"@
}

/// The RFC editor URL prefix whose targets are normalized to their `.txt`
/// source.
pub open spec fn rfc_editor_prefix() -> Seq<char> {
    "https://www.rfc-editor.org/rfc/"@
}

/// The stable document-source URL fetched in place of `s`: an IETF tools
/// RFC link becomes the RFC editor's `.txt` document, an RFC editor link is
/// normalized to its `.txt` form, and any other URL is fetched as it
/// stands. Repeated `.txt` and `.html` suffixes are stripped before the
/// `.txt` suffix is put on.
pub open spec fn spec_canonical_url(s: Seq<char>) -> Seq<char> {
    if seq_starts_with(s, ietf_tools_prefix()) {
        rfc_editor_prefix() + trim_suffix_rep(
            trim_suffix_rep(s.subrange(ietf_tools_prefix().len() as int, s.len() as int), ".txt"@),
            ".html"@,
        ) + ".txt"@
    } else if seq_starts_with(s, rfc_editor_prefix()) {
        trim_suffix_rep(trim_suffix_rep(s, ".txt"@), ".html"@) + ".txt"@
    } else {
        s
    }
}

impl TargetPath {
    /// Classify an annotation's target. An absolute path — even one that
    /// holds a scheme separator — is a local path as it stands; a URL-style
    /// target must parse as an absolute URL and is rejected otherwise; any
    /// other target is the annotation's own location for it, which the
    /// caller resolves against the annotation's source file and hands in as
    /// `resolved`.
    pub fn from_annotation(target: &String, resolved: &String) -> (r: Result<
        TargetPath,
        TargetError,
    >)
        ensures
            seq_starts_with(target@, "/"@) ==> (r matches Ok(t) && (
            t matches TargetPath::Path(p) && p@ == target@)),
            !seq_starts_with(target@, "/"@) && !has_scheme(target@) ==> (r matches Ok(t) && (
            t matches TargetPath::Path(p) && p@ == resolved@)),
            !seq_starts_with(target@, "/"@) && has_scheme(target@) && url_parse_ok(target@) ==> (
            r matches Ok(t) && (t matches TargetPath::Url(u) && u.text@ == url_text_of(target@)
                && opt_str_view(u.host) == url_host_of(target@) && opt_segs_view(u.segments)
                == url_segments_of(target@))),
            !seq_starts_with(target@, "/"@) && has_scheme(target@) && !url_parse_ok(target@)
                ==> r == Err::<TargetPath, TargetError>(TargetError::InvalidUrl),
    {
        if str_starts_with(target.as_str(), "/") {
            return Ok(TargetPath::Path(target.clone()));
        }
        if str_has_scheme(target.as_str()) {
            return match parse_url(target.as_str()) {
                Some(parts) => Ok(TargetPath::Url(parts)),
                None => Err(TargetError::InvalidUrl),
            };
        }
        Ok(TargetPath::Path(resolved.clone()))
    }

    /// Classify a target string: one without a scheme separator is a local
    /// path as it stands; one with a separator must parse as an absolute
    /// URL, and is rejected otherwise.
    pub fn from_str(s: &String) -> (r: Result<TargetPath, TargetError>)
        ensures
            !has_scheme(s@) ==> (r matches Ok(t) && t matches TargetPath::Path(p) && p@ == s@),
            has_scheme(s@) && url_parse_ok(s@) ==> (r matches Ok(t) && t matches TargetPath::Url(u)
                && u.text@ == url_text_of(s@) && opt_str_view(u.host) == url_host_of(s@)
                && opt_segs_view(u.segments) == url_segments_of(s@)),
            has_scheme(s@) && !url_parse_ok(s@) ==> r == Err::<TargetPath, TargetError>(
                TargetError::InvalidUrl,
            ),
    {
        if !str_has_scheme(s.as_str()) {
            return Ok(TargetPath::Path(s.clone()));
        }
        match parse_url(s.as_str()) {
            Some(parts) => Ok(TargetPath::Url(parts)),
            None => Err(TargetError::InvalidUrl),
        }
    }

    /// The target's text: the normalized URL serialization for a URL
    /// target, the path itself for a file target.
    pub fn to_text(&self) -> (r: String)
        ensures
            self matches TargetPath::Url(u) ==> r@ == u.text@,
            self matches TargetPath::Path(p) ==> r@ == p@,
    {
        match self {
            TargetPath::Url(u) => u.text.clone(),
            TargetPath::Path(p) => p.clone(),
        }
    }

    /// The components, relative to the consumer's working directory, of the
    /// local file that stands for this target: a file target is its own
    /// path, a URL target lives under `specs/<host>/<segments>` with the
    /// last segment's extension replaced by `txt`.
    pub fn local(&self) -> (r: Vec<String>)
        requires
            self matches TargetPath::Url(u) ==> locatable(*u),
        ensures
            self matches TargetPath::Path(p) ==> (r@.len() == 1 && r@[0]@ == p@),
            self matches TargetPath::Url(u) ==> r@.map_values(|x: String| x@)
                == spec_cache_components(
                u.host.unwrap()@,
                u.segments.unwrap()@.map_values(|x: String| x@),
            ),
    {
        match self {
            TargetPath::Path(p) => {
                let mut r: Vec<String> = Vec::new();
                r.push(p.clone());
                r
            },
            TargetPath::Url(u) => {
                let host = match &u.host {
                    Some(h) => h,
                    None => unreached(),
                };
                let segs = match &u.segments {
                    Some(v) => v,
                    None => unreached(),
                };
                let ghost gsegs = segs@.map_values(|x: String| x@);
                let mut r: Vec<String> = Vec::new();
                r.push(String::from_str("specs"));
                let n = segs.len();
                if n == 0 {
                    r.push(set_txt_ext(host.as_str()));
                    assert(r@.map_values(|x: String| x@) =~~= spec_cache_components(
                        host@,
                        gsegs,
                    ));
                    return r;
                }
                r.push(host.clone());
                let mut i: usize = 0;
                while i < n - 1
                    invariant
                        n == segs@.len(),
                        n >= 1,
                        i <= n - 1,
                        gsegs == segs@.map_values(|x: String| x@),
                        r@.len() == i + 2,
                        r@[0]@ == "specs"@,
                        r@[1]@ == host@,
                        forall|j: int| 0 <= j < i ==> r@[j + 2]@ == gsegs[j],
                    decreases n - i,
                {
                    r.push(segs[i].clone());
                    i = i + 1;
                }
                r.push(set_txt_ext(segs[n - 1].as_str()));
                assert(r@.map_values(|x: String| x@) =~~= spec_cache_components(host@, gsegs));
                r
            },
        }
    }
}

impl Target {
    /// Classify an annotation's target as [`TargetPath::from_annotation`]
    /// does, keeping the format the annotation names.
    pub fn from_annotation(target: &String, resolved: &String, format: Format) -> (r: Result<
        Target,
        TargetError,
    >)
        ensures
            seq_starts_with(target@, "/"@) ==> (r matches Ok(t) && t.format == format && (
            t.path matches TargetPath::Path(p) && p@ == target@)),
            !seq_starts_with(target@, "/"@) && !has_scheme(target@) ==> (r matches Ok(t)
                && t.format == format && (t.path matches TargetPath::Path(p) && p@ == resolved@)),
            !seq_starts_with(target@, "/"@) && has_scheme(target@) && url_parse_ok(target@) ==> (
            r matches Ok(t) && t.format == format && (t.path matches TargetPath::Url(u) && u.text@
                == url_text_of(target@) && opt_str_view(u.host) == url_host_of(target@)
                && opt_segs_view(u.segments) == url_segments_of(target@))),
            !seq_starts_with(target@, "/"@) && has_scheme(target@) && !url_parse_ok(target@)
                ==> r == Err::<Target, TargetError>(TargetError::InvalidUrl),
    {
        match TargetPath::from_annotation(target, resolved) {
            Ok(path) => Ok(Target { path, format }),
            Err(e) => Err(e),
        }
    }

    /// Classify a target string as [`TargetPath::from_str`] does, taking
    /// the default format.
    pub fn from_str(s: &String) -> (r: Result<Target, TargetError>)
        ensures
            !has_scheme(s@) ==> (r matches Ok(t) && t.format == Format::Auto && (
            t.path matches TargetPath::Path(p) && p@ == s@)),
            has_scheme(s@) && url_parse_ok(s@) ==> (r matches Ok(t) && t.format == Format::Auto && (
            t.path matches TargetPath::Url(u) && u.text@ == url_text_of(s@) && opt_str_view(u.host)
                == url_host_of(s@) && opt_segs_view(u.segments) == url_segments_of(s@))),
            has_scheme(s@) && !url_parse_ok(s@) ==> r == Err::<Target, TargetError>(
                TargetError::InvalidUrl,
            ),
    {
        match TargetPath::from_str(s) {
            Ok(path) => Ok(Target { path, format: Format::default() }),
            Err(e) => Err(e),
        }
    }
}

/// The stable document-source URL fetched in place of `url`, as
/// [`spec_canonical_url`] describes.
pub fn canonical_url(url: &str) -> (r: String)
    ensures
        r@ == spec_canonical_url(url@),
{
    let ietf = "https://tools.ietf.org/rfc/";
    let editor = "https://www.rfc-editor.org/rfc/";
    proof {
        reveal_strlit(".txt");
        reveal_strlit(".html");
    }
    if str_starts_with(url, ietf) {
        let plen = ietf.unicode_len();
        let rest = url.substring_char(plen, url.unicode_len());
        let t1 = trim_end_matches_rep(rest, ".txt");
        let t2 = trim_end_matches_rep(t1.as_str(), ".html");
        let r = String::from_str(editor).concat(t2.as_str()).concat(".txt");
        assert(r@ =~= spec_canonical_url(url@));
        r
    } else if str_starts_with(url, editor) {
        let t1 = trim_end_matches_rep(url, ".txt");
        let t2 = trim_end_matches_rep(t1.as_str(), ".html");
        let r = t2.concat(".txt");
        assert(r@ =~= spec_canonical_url(url@));
        r
    } else {
        url.to_owned()
    }
}

} // verus!
