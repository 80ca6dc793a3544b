//! Verified string helpers used by the target module: prefix and suffix
//! tests, detection of a URL scheme separator, repeated suffix trimming,
//! and locating the extension dot of a file name.

use vstd::prelude::*;

verus! {

/// Whether `p` is a prefix of `s`.
pub open spec fn seq_starts_with(s: Seq<char>, p: Seq<char>) -> bool {
    p.len() <= s.len() && s.subrange(0, p.len() as int) == p
}

/// Whether `p` is a suffix of `s`.
pub open spec fn seq_ends_with(s: Seq<char>, p: Seq<char>) -> bool {
    p.len() <= s.len() && s.subrange(s.len() - p.len(), s.len() as int) == p
}

/// Whether the scheme separator `://` occurs at position `i` of `s`.
pub open spec fn scheme_at(s: Seq<char>, i: int) -> bool {
    0 <= i && i + 3 <= s.len() && s[i] == ':' && s[i + 1] == '/' && s[i + 2] == '/'
}

/// Whether `s` contains the scheme separator `://` anywhere.
pub open spec fn has_scheme(s: Seq<char>) -> bool {
    exists|i: int| #[trigger] scheme_at(s, i)
}

/// `s` with every copy of the suffix `suf` removed from its end, one after
/// the other, until none is left.
pub open spec fn trim_suffix_rep(s: Seq<char>, suf: Seq<char>) -> Seq<char>
    decreases s.len(),
{
    if suf.len() > 0 && seq_ends_with(s, suf) {
        trim_suffix_rep(s.subrange(0, s.len() - suf.len()), suf)
    } else {
        s
    }
}

/// The index of the last `.` in `s`, or `-1` when `s` holds none.
pub open spec fn last_dot_at(s: Seq<char>) -> int
    decreases s.len(),
{
    if s.len() == 0 {
        -1
    } else if s[s.len() - 1] == '.' {
        s.len() - 1
    } else {
        last_dot_at(s.drop_last())
    }
}

/// A file name with its extension replaced by `txt`: everything from the
/// last `.` on is dropped, unless that dot is the leading character or there
/// is none, in which case `.txt` is appended to the whole name.
pub open spec fn set_txt_extension(s: Seq<char>) -> Seq<char> {
    if last_dot_at(s) >= 1 {
        s.subrange(0, last_dot_at(s)) + ".txt"@
    } else {
        s + ".txt"@
    }
}

/// `s` ended by a newline: unchanged when it already ends with one, and
/// with one appended otherwise (an empty text becomes a lone newline).
pub open spec fn with_trailing_newline(s: Seq<char>) -> Seq<char> {
    if s.len() > 0 && s[s.len() - 1] == '\n' {
        s
    } else {
        s.push('\n')
    }
}

/// Whether `p` is a prefix of `s`.
pub fn str_starts_with(s: &str, p: &str) -> (r: bool)
    ensures
        r == seq_starts_with(s@, p@),
{
    let n = p.unicode_len();
    if n > s.unicode_len() {
        return false;
    }
    let mut i: usize = 0;
    while i < n
        invariant
            i <= n,
            n == p@.len(),
            n <= s@.len(),
            forall|j: int| 0 <= j < i ==> s@[j] == p@[j],
        decreases n - i,
    {
        if s.get_char(i) != p.get_char(i) {
            assert(s@.subrange(0, n as int)[i as int] != p@[i as int]);
            return false;
        }
        i = i + 1;
    }
    assert(s@.subrange(0, n as int) =~= p@);
    true
}

/// Whether `p` is a suffix of `s`.
pub fn str_ends_with(s: &str, p: &str) -> (r: bool)
    ensures
        r == seq_ends_with(s@, p@),
{
    let n = p.unicode_len();
    let m = s.unicode_len();
    if n > m {
        return false;
    }
    let off = m - n;
    let mut i: usize = 0;
    while i < n
        invariant
            i <= n,
            n == p@.len(),
            m == s@.len(),
            off == m - n,
            n <= m,
            forall|j: int| 0 <= j < i ==> s@[off + j] == p@[j],
        decreases n - i,
    {
        if s.get_char(off + i) != p.get_char(i) {
            assert(s@.subrange(s@.len() - n, s@.len() as int)[i as int] != p@[i as int]);
            return false;
        }
        i = i + 1;
    }
    assert(s@.subrange(s@.len() - n, s@.len() as int) =~= p@);
    true
}

/// Whether `s` contains the scheme separator `://` anywhere.
pub fn str_has_scheme(s: &str) -> (r: bool)
    ensures
        r == has_scheme(s@),
{
    let n = s.unicode_len();
    if n < 3 {
        assert(forall|i: int| !scheme_at(s@, i));
        return false;
    }
    let mut i: usize = 0;
    while i <= n - 3
        invariant
            n == s@.len(),
            3 <= n,
            i <= n - 2,
            forall|j: int| 0 <= j < i ==> !scheme_at(s@, j),
        decreases n - i,
    {
        if s.get_char(i) == ':' && s.get_char(i + 1) == '/' && s.get_char(i + 2) == '/' {
            assert(scheme_at(s@, i as int));
            return true;
        }
        assert(!scheme_at(s@, i as int));
        i = i + 1;
    }
    assert(forall|j: int| i <= j ==> !scheme_at(s@, j));
    false
}

/// `s` with every copy of the suffix `suf` removed from its end.
pub fn trim_end_matches_rep(s: &str, suf: &str) -> (r: String)
    requires
        suf@.len() > 0,
    ensures
        r@ == trim_suffix_rep(s@, suf@),
{
    let n = suf.unicode_len();
    let mut cur: String = s.to_owned();
    while str_ends_with(cur.as_str(), suf)
        invariant
            n == suf@.len(),
            n > 0,
            trim_suffix_rep(cur@, suf@) == trim_suffix_rep(s@, suf@),
        decreases cur@.len(),
    {
        let m = cur.as_str().unicode_len();
        let shorter = cur.as_str().substring_char(0, m - n);
        cur = shorter.to_owned();
    }
    cur
}

proof fn lemma_last_dot_none(s: Seq<char>)
    requires
        forall|j: int| 0 <= j < s.len() ==> s[j] != '.',
    ensures
        last_dot_at(s) == -1,
    decreases s.len(),
{
    if s.len() > 0 {
        lemma_last_dot_none(s.drop_last());
    }
}

proof fn lemma_last_dot_found(s: Seq<char>, k: int)
    requires
        0 <= k < s.len(),
        s[k] == '.',
        forall|j: int| k < j < s.len() ==> s[j] != '.',
    ensures
        last_dot_at(s) == k,
    decreases s.len(),
{
    if k < s.len() - 1 {
        lemma_last_dot_found(s.drop_last(), k);
    }
}

/// `name` with its extension replaced by `txt`, as [`set_txt_extension`]
/// describes.
pub fn set_txt_ext(name: &str) -> (r: String)
    ensures
        r@ == set_txt_extension(name@),
{
    let n = name.unicode_len();
    let mut i: usize = n;
    while i > 0
        invariant
            i <= n,
            n == name@.len(),
            forall|j: int| i <= j < n ==> name@[j] != '.',
        decreases i,
    {
        if name.get_char(i - 1) == '.' {
            proof {
                lemma_last_dot_found(name@, i - 1);
            }
            if i - 1 >= 1 {
                let stem = name.substring_char(0, i - 1);
                let r = stem.to_owned().concat(".txt");
                assert(r@ == set_txt_extension(name@));
                return r;
            }
            let r = name.to_owned().concat(".txt");
            assert(r@ == set_txt_extension(name@));
            return r;
        }
        i = i - 1;
    }
    proof {
        lemma_last_dot_none(name@);
    }
    name.to_owned().concat(".txt")
}

/// `s` ended by a newline: unchanged when it already ends with one, with
/// one appended otherwise.
pub fn ensure_trailing_newline(s: String) -> (r: String)
    ensures
        r@ == with_trailing_newline(s@),
{
    let n = s.as_str().unicode_len();
    if n > 0 && s.as_str().get_char(n - 1) == '\n' {
        s
    } else {
        let ghost v = s@;
        let r = s.concat("\n");
        proof {
            reveal_strlit("\n");
            assert(r@ =~= v.push('\n'));
        }
        r
    }
}

} // verus!
