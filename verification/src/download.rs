//! What a download response says about the file: its name and its size.

use vstd::prelude::*;
use vstd::string::StringSliceAdditionalSpecFns;
use vstd::utf8::{decode_utf8, valid_utf8};

use crate::model::Download;
use crate::text::{
    chars_of, copy_range, decimal_u64, find_char, index_of, parse_u64_range, range_starts_with,
    string_of, trim, trim_range,
};

verus! {

pub open spec fn is_hex_byte(b: u8) -> bool {
    (48 <= b <= 57) || (65 <= b <= 70) || (97 <= b <= 102)
}

pub open spec fn hex_value(b: u8) -> int {
    if 48 <= b <= 57 {
        b - 48
    } else if 65 <= b <= 70 {
        b - 55
    } else {
        b - 87
    }
}

/// Percent-decoding (WHATWG URL): each `%` followed by two hexadecimal digits
/// becomes the byte they spell; every other byte is kept as it is.
pub open spec fn percent_decoded(b: Seq<u8>) -> Seq<u8>
    decreases b.len(),
{
    if b.len() == 0 {
        Seq::empty()
    } else if b[0] == 37 && b.len() >= 3 && is_hex_byte(b[1]) && is_hex_byte(b[2]) {
        seq![(hex_value(b[1]) * 16 + hex_value(b[2])) as u8] + percent_decoded(b.skip(3))
    } else {
        seq![b[0]] + percent_decoded(b.skip(1))
    }
}

/// The text that percent-decoding `s` spells, when the decoded bytes are UTF-8.
pub open spec fn percent_decoded_text(s: Seq<char>) -> Option<Seq<char>> {
    let bytes = percent_decoded(vstd::utf8::encode_utf8(s));
    if valid_utf8(bytes) {
        Some(decode_utf8(bytes))
    } else {
        None
    }
}

/// `percent_encoding::percent_decode_str(s).decode_utf8()`: percent-decodes the
/// UTF-8 bytes of `s` and reads the result as UTF-8, failing when it is not.
#[verifier::external_body]
fn percent_decode_utf8(s: &str) -> (r: Option<String>)
    ensures
        r.deep_view() == percent_decoded_text(s@),
{
    percent_encoding::percent_decode_str(s).decode_utf8().ok().map(|c| c.into_owned())
}

/// Whether two texts are equal once ASCII letters are folded to lower case
/// (`str::eq_ignore_ascii_case`).
pub open spec fn ascii_lower(c: char) -> char {
    if 'A' <= c <= 'Z' {
        ((c as u32) + 32) as char
    } else {
        c
    }
}

pub open spec fn eq_ignore_ascii_case(a: Seq<char>, b: Seq<char>) -> bool {
    a.len() == b.len() && forall|i: int| 0 <= i < a.len() ==> ascii_lower(a[i]) == ascii_lower(b[i])
}

/// `s` with every leading and trailing `"` removed (`str::trim_matches('"')`).
pub open spec fn trim_quotes_start(s: Seq<char>) -> Seq<char>
    decreases s.len(),
{
    if s.len() > 0 && s[0] == '"' {
        trim_quotes_start(s.drop_first())
    } else {
        s
    }
}

pub open spec fn trim_quotes_end(s: Seq<char>) -> Seq<char>
    decreases s.len(),
{
    if s.len() > 0 && s.last() == '"' {
        trim_quotes_end(s.drop_last())
    } else {
        s
    }
}

pub open spec fn trim_quotes(s: Seq<char>) -> Seq<char> {
    trim_quotes_end(trim_quotes_start(s))
}

pub open spec fn is_path_separator(c: char) -> bool {
    c == '/' || c == '\\'
}

/// What follows the last `/` or `\` in `s` (all of `s` when there is none).
pub open spec fn last_component(s: Seq<char>) -> Seq<char>
    decreases s.len(),
{
    if s.len() == 0 {
        s
    } else if is_path_separator(s.last()) {
        Seq::empty()
    } else {
        last_component(s.drop_last()).push(s.last())
    }
}

/// The names gathered so far from a `Content-Disposition` header: the ASCII
/// `filename` and the UTF-8 `filename*`.
pub struct DispositionNames {
    pub fallback: Option<Seq<char>>,
    pub extended: Option<Seq<char>>,
}

/// What one `;`-separated parameter (already trimmed) adds to the names.
pub open spec fn disposition_param(p: Seq<char>, st: DispositionNames) -> DispositionNames {
    if p.len() >= 10 && p.take(10) == "filename*="@ {
        // `charset'language'value`; the value may itself hold quotes.
        let value = p.skip(10);
        let i = index_of(value, '\'');
        let rest = value.skip(i + 1);
        let k = index_of(rest, '\'');
        if i < value.len() && k < rest.len() {
            if eq_ignore_ascii_case(value.take(i), "utf-8"@) {
                DispositionNames {
                    fallback: st.fallback,
                    extended: percent_decoded_text(rest.skip(k + 1)),
                }
            } else {
                st
            }
        } else {
            st
        }
    } else if p.len() >= 9 && p.take(9) == "filename="@ {
        DispositionNames { fallback: Some(trim_quotes(p.skip(9))), extended: st.extended }
    } else {
        st
    }
}

/// The names after reading every parameter of `s` in order.
pub open spec fn disposition_scan(s: Seq<char>, st: DispositionNames) -> DispositionNames
    decreases s.len(),
{
    let i = index_of(s, ';');
    let next = disposition_param(trim(s.take(i)), st);
    if i < s.len() {
        proof {
            crate::text::lemma_index_of(s, ';');
        }
        disposition_scan(s.skip(i + 1), next)
    } else {
        next
    }
}

/// The file name a `Content-Disposition` header gives: the UTF-8 `filename*`
/// when there is one, else the ASCII `filename`, cut to its last path component,
/// and nothing when that is empty.
pub open spec fn disposition_file_name(header: Seq<char>) -> Option<Seq<char>> {
    let names = disposition_scan(header, DispositionNames { fallback: None, extended: None });
    let chosen = if names.extended is Some {
        names.extended
    } else {
        names.fallback
    };
    match chosen {
        Some(name) => if last_component(name).len() > 0 {
            Some(last_component(name))
        } else {
            None
        },
        None => None,
    }
}

proof fn lemma_last_component(s: Seq<char>)
    ensures
        last_component(s).len() <= s.len(),
        forall|k: int|
            0 <= k < last_component(s).len() ==> !is_path_separator(#[trigger] last_component(s)[k]),
    decreases s.len(),
{
    if s.len() > 0 && !is_path_separator(s.last()) {
        lemma_last_component(s.drop_last());
        let c = last_component(s.drop_last());
        assert forall|k: int|
            0 <= k < last_component(s).len() implies !is_path_separator(
            #[trigger] last_component(s)[k],
        ) by {
            if k < c.len() {
                assert(last_component(s)[k] == c[k]);
            }
        }
    }
}

/// A name taken from a header never holds a path separator and is never empty,
/// so it can only name a file in the folder it is saved in.
pub proof fn lemma_file_name_is_plain(header: Seq<char>)
    ensures
        disposition_file_name(header) matches Some(name) ==> name.len() > 0 && forall|k: int|
            0 <= k < name.len() ==> !is_path_separator(#[trigger] name[k]),
{
    let names = disposition_scan(header, DispositionNames { fallback: None, extended: None });
    let chosen = if names.extended is Some {
        names.extended
    } else {
        names.fallback
    };
    if let Some(name) = chosen {
        lemma_last_component(name);
    }
}

/// Applies one trimmed parameter `v[a..b]` to the names gathered so far.
fn apply_param(
    v: &Vec<char>,
    a: usize,
    b: usize,
    fallback: &mut Option<String>,
    extended: &mut Option<String>,
)
    requires
        a <= b <= v@.len(),
    ensures
        disposition_param(
            v@.subrange(a as int, b as int),
            DispositionNames {
                fallback: old(fallback).deep_view(),
                extended: old(extended).deep_view(),
            },
        ) == (DispositionNames {
            fallback: final(fallback).deep_view(),
            extended: final(extended).deep_view(),
        }),
{
    let ghost p = v@.subrange(a as int, b as int);
    proof {
        if p.len() >= 10 {
            assert(p.take(10) == v@.subrange(a as int, a + 10));
        }
        if p.len() >= 9 {
            assert(p.take(9) == v@.subrange(a as int, a + 9));
        }
    }
    if range_starts_with(v, a, b, "filename*=") {
        proof {
            reveal_strlit("filename*=");
        }
        let va = a + 10;
        let ghost value = v@.subrange(va as int, b as int);
        assert(p.skip(10) == value);
        assert(p.take(10) == "filename*="@);
        let i = find_char(v, va, b, '\'');
        if i < b {
            let ghost rest = v@.subrange(i + 1, b as int);
            assert(value.skip(i - va + 1) == rest);
            let k = find_char(v, i + 1, b, '\'');
            if k < b {
                assert(value.take(i - va) == v@.subrange(va as int, i as int));
                assert(rest.skip(k - i) == v@.subrange(k + 1, b as int));
                if charset_is_utf8(v, va, i) {
                    let piece = copy_range(v, k + 1, b);
                    let encoded = string_of(piece.as_slice());
                    assert(encoded@ == rest.skip(k - i));
                    *extended = percent_decode_utf8(encoded.as_str());
                }
            }
        }
    } else if range_starts_with(v, a, b, "filename=") {
        proof {
            reveal_strlit("filename*=");
            reveal_strlit("filename=");
        }
        assert(p.take(9) == "filename="@);
        assert(p.skip(9) == v@.subrange(a + 9, b as int));
        let (x, y) = trim_quote_range(v, a + 9, b);
        *fallback = Some(string_of(copy_range(v, x, y).as_slice()));
    } else {
        proof {
            reveal_strlit("filename*=");
            reveal_strlit("filename=");
        }
    }
}

/// Whether `v[lo..hi]` is `utf-8` in any mix of case.
fn charset_is_utf8(v: &Vec<char>, lo: usize, hi: usize) -> (r: bool)
    requires
        lo <= hi <= v@.len(),
    ensures
        r == eq_ignore_ascii_case(v@.subrange(lo as int, hi as int), "utf-8"@),
{
    let want = chars_of("utf-8");
    if hi - lo != want.len() {
        return false;
    }
    let mut i: usize = 0;
    while i < want.len()
        invariant
            want@ == "utf-8"@,
            hi - lo == want@.len(),
            lo <= hi <= v@.len(),
            i <= want@.len(),
            forall|k: int| 0 <= k < i ==> ascii_lower(v@[lo + k]) == ascii_lower(want@[k]),
        decreases want@.len() - i,
    {
        let c = v[lo + i];
        let d = want[i];
        let lc = if 'A' <= c && c <= 'Z' {
            ((c as u32) + 32) as u8 as char
        } else {
            c
        };
        let ld = if 'A' <= d && d <= 'Z' {
            ((d as u32) + 32) as u8 as char
        } else {
            d
        };
        if lc != ld {
            assert(v@.subrange(lo as int, hi as int)[i as int] == c);
            return false;
        }
        i = i + 1;
    }
    assert forall|k: int| 0 <= k < hi - lo implies ascii_lower(
        v@.subrange(lo as int, hi as int)[k],
    ) == ascii_lower("utf-8"@[k]) by {
        assert(v@.subrange(lo as int, hi as int)[k] == v@[lo + k]);
    }
    true
}

/// The bounds of `v[lo..hi]` with its leading and trailing `"` left out.
fn trim_quote_range(v: &Vec<char>, lo: usize, hi: usize) -> (r: (usize, usize))
    requires
        lo <= hi <= v@.len(),
    ensures
        lo <= r.0 <= r.1 <= hi,
        v@.subrange(r.0 as int, r.1 as int) == trim_quotes(v@.subrange(lo as int, hi as int)),
{
    let mut a = lo;
    while a < hi && v[a] == '"'
        invariant
            lo <= a <= hi <= v@.len(),
            trim_quotes_start(v@.subrange(lo as int, hi as int)) == trim_quotes_start(
                v@.subrange(a as int, hi as int),
            ),
        decreases hi - a,
    {
        assert(v@.subrange(a as int, hi as int).drop_first() == v@.subrange(a + 1, hi as int));
        a = a + 1;
    }
    let mut b = hi;
    while b > a && v[b - 1] == '"'
        invariant
            lo <= a <= b <= hi <= v@.len(),
            trim_quotes_end(v@.subrange(a as int, hi as int)) == trim_quotes_end(
                v@.subrange(a as int, b as int),
            ),
        decreases b - a,
    {
        assert(v@.subrange(a as int, b as int).drop_last() == v@.subrange(a as int, b - 1));
        b = b - 1;
    }
    (a, b)
}

/// The file name in a `Content-Disposition` header. Prefers the UTF-8
/// `filename*` (RFC 6266) over the ASCII-only `filename` fallback, and keeps
/// only the last path component so a name can never point outside the folder
/// it is saved in.
pub fn content_disposition_file_name(header: &str) -> (r: Option<String>)
    ensures
        r.deep_view() == disposition_file_name(header@),
        r matches Some(name) ==> name@.len() > 0 && forall|k: int|
            0 <= k < name@.len() ==> !is_path_separator(#[trigger] name@[k]),
{
    proof {
        lemma_file_name_is_plain(header@);
    }
    let v = chars_of(header);
    let n = v.len();
    let mut fallback: Option<String> = None;
    let mut extended: Option<String> = None;
    let mut pos: usize = 0;
    let ghost init = DispositionNames { fallback: None, extended: None };
    assert(v@.subrange(0, n as int) == v@);
    loop
        invariant
            v@ == header@,
            n == v@.len(),
            pos <= n,
            disposition_scan(header@, init) == disposition_scan(
                v@.subrange(pos as int, n as int),
                DispositionNames {
                    fallback: fallback.deep_view(),
                    extended: extended.deep_view(),
                },
            ),
        ensures
            disposition_scan(header@, init) == (DispositionNames {
                fallback: fallback.deep_view(),
                extended: extended.deep_view(),
            }),
        decreases n - pos,
    {
        let ghost rest = v@.subrange(pos as int, n as int);
        let j = find_char(&v, pos, n, ';');
        let (a, b) = trim_range(&v, pos, j);
        assert(rest.take(j - pos) == v@.subrange(pos as int, j as int));
        apply_param(&v, a, b, &mut fallback, &mut extended);
        if j >= n {
            break;
        }
        assert(rest.skip(j - pos + 1) == v@.subrange(j + 1, n as int));
        pos = j + 1;
    }
    let name: Vec<char> = match extended {
        Some(t) => chars_of(t.as_str()),
        None => match fallback {
            Some(f) => chars_of(f.as_str()),
            None => {
                return None;
            },
        },
    };
    let start = last_component_start(&name);
    if start == name.len() {
        return None;
    }
    Some(string_of(copy_range(&name, start, name.len()).as_slice()))
}

proof fn lemma_last_component_suffix(s: Seq<char>, i: int)
    requires
        0 <= i <= s.len(),
        forall|k: int| i <= k < s.len() ==> !is_path_separator(s[k]),
    ensures
        last_component(s) == last_component(s.take(i)) + s.skip(i),
    decreases s.len(),
{
    if i == s.len() {
        assert(s.take(i) == s);
        assert(s.skip(i) == Seq::<char>::empty());
        assert(s + Seq::<char>::empty() == s);
    } else {
        let t = s.drop_last();
        lemma_last_component_suffix(t, i);
        assert(t.take(i) == s.take(i));
        assert(s.skip(i) == t.skip(i).push(s.last()));
        assert((last_component(t.take(i)) + t.skip(i)).push(s.last()) == last_component(t.take(i))
            + t.skip(i).push(s.last()));
    }
}

/// Where the last path component of `v` begins.
fn last_component_start(v: &Vec<char>) -> (r: usize)
    ensures
        r <= v@.len(),
        v@.subrange(r as int, v@.len() as int) == last_component(v@),
{
    let mut i = v.len();
    while i > 0 && !(v[i - 1] == '/' || v[i - 1] == '\\')
        invariant
            i <= v@.len(),
            forall|k: int| i <= k < v@.len() ==> !is_path_separator(v@[k]),
        decreases i,
    {
        i = i - 1;
    }
    proof {
        lemma_last_component_suffix(v@, i as int);
        if i > 0 {
            assert(v@.take(i as int).last() == v@[i - 1]);
        }
        assert(last_component(v@.take(i as int)) == Seq::<char>::empty());
        assert(v@.subrange(i as int, v@.len() as int) == v@.skip(i as int));
        assert(Seq::<char>::empty() + v@.skip(i as int) == v@.skip(i as int));
    }
    i
}

/// How many bytes a download body will be, if the response says: the
/// `Content-Length` when there is one, else the size the API repeats in
/// `x-scribe-content-length` (trimmed, read as a decimal `u64`).
pub open spec fn total_bytes(content_length: Option<u64>, declared: Option<Seq<char>>) -> Option<
    u64,
> {
    match content_length {
        Some(n) => Some(n),
        None => match declared {
            Some(text) => decimal_u64(trim(text)),
            None => None,
        },
    }
}

pub fn response_total_bytes(content_length: Option<u64>, declared: Option<&str>) -> (r: Option<u64>)
    ensures
        r == total_bytes(content_length, declared.deep_view()),
{
    match content_length {
        Some(n) => Some(n),
        None => match declared {
            Some(text) => {
                let v = chars_of(text);
                let (a, b) = trim_range(&v, 0, v.len());
                assert(v@.subrange(0, v@.len() as int) == v@);
                parse_u64_range(&v, a, b)
            },
            None => None,
        },
    }
}

/// A download under way: the bytes received so far, and the size the server
/// announced for the whole body, if it did.
pub struct DownloadProgress {
    data: Vec<u8>,
    total: Option<u64>,
}

impl DownloadProgress {
    pub closed spec fn received(&self) -> Seq<u8> {
        self.data@
    }

    pub closed spec fn announced(&self) -> Option<u64> {
        self.total
    }

    /// Starts a download of `total` bytes (`None` when unknown), with the
    /// first progress report: nothing received yet.
    pub fn start(total: Option<u64>) -> (r: (DownloadProgress, (u64, Option<u64>)))
        ensures
            r.0.received() == Seq::<u8>::empty(),
            r.0.announced() == total,
            r.1 == (0u64, total),
    {
        (DownloadProgress { data: Vec::new(), total }, (0, total))
    }

    /// Appends a chunk of the body as it arrives, and reports the progress
    /// that follows: bytes received so far, and the announced total.
    pub fn receive(&mut self, chunk: &[u8]) -> (r: (u64, Option<u64>))
        requires
            old(self).received().len() + chunk@.len() <= usize::MAX,
            old(self).received().len() + chunk@.len() <= u64::MAX,
        ensures
            final(self).received() == old(self).received() + chunk@,
            final(self).announced() == old(self).announced(),
            r == (final(self).received().len() as u64, final(self).announced()),
    {
        self.data.extend_from_slice(chunk);
        assert(self.data@ =~= old(self).data@ + chunk@);
        (self.data.len() as u64, self.total)
    }

    /// The finished download, named `file_name`.
    pub fn finish(self, file_name: Option<String>) -> (r: Download)
        ensures
            r.data@ == self.received(),
            r.file_name == file_name,
    {
        Download { data: self.data, file_name }
    }
}

} // verus!
