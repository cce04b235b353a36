use vstd::prelude::*;

use crate::error::{resolver_error, VdrError, VdrErrorKind};
use crate::percent::{percent_decode_range, percent_decoded};

verus! {

/// The text that UTF-8 bytes encode; `None` where the bytes are not UTF-8.
pub uninterp spec fn utf8_text_of(b: Seq<u8>) -> Option<Seq<char>>;

pub open spec fn all_ascii(b: Seq<u8>) -> bool {
    forall|i: int| 0 <= i < b.len() ==> #[trigger] b[i] < 128
}

/// The characters whose codes are the bytes `b`.
pub open spec fn ascii_text(b: Seq<u8>) -> Seq<char> {
    b.map_values(|x: u8| (x as u32) as char)
}

/// Relies on `String::from_utf8`: the text the bytes encode, or an error for
/// bytes that are not UTF-8; the answer depends on the bytes alone. ASCII
/// bytes are UTF-8 and each stands for the character of the same code.
#[verifier::external_body]
fn text_from_utf8(b: Vec<u8>) -> (r: Option<String>)
    ensures
        match r {
            Some(t) => utf8_text_of(b@) == Some(t@),
            None => utf8_text_of(b@) is None,
        },
        all_ascii(b@) ==> r is Some && r->Some_0@ == ascii_text(b@),
{
    String::from_utf8(b).ok()
}

/// The query keys that the request mapper reads.
#[derive(Clone, Copy, Debug, PartialEq, Eq, Structural)]
pub enum QueryParameter {
    VersionId,
    VersionTime,
    From,
    To,
    /// A key kept in the URL but not read.
    Other,
}

pub open spec fn parameter_of(name: Seq<char>) -> QueryParameter {
    if name == "versionId"@ {
        QueryParameter::VersionId
    } else if name == "versionTime"@ {
        QueryParameter::VersionTime
    } else if name == "from"@ {
        QueryParameter::From
    } else if name == "to"@ {
        QueryParameter::To
    } else {
        QueryParameter::Other
    }
}

/// One `name=value` pair of the query, in the order of the URL.
#[derive(Clone, Debug)]
pub struct QueryEntry {
    pub key: QueryParameter,
    pub name: String,
    pub value: String,
}

/// A parsed `did:indy:<namespace>:<id>[/<path>][?<query>]`.
#[derive(Clone, Debug)]
pub struct DidUrl {
    pub namespace: String,
    pub id: String,
    /// The percent-decoded path segments, when the URL has a path.
    pub path: Option<Vec<String>>,
    pub query: Vec<QueryEntry>,
}

pub struct DidUrlView {
    pub namespace: Seq<char>,
    pub id: Seq<char>,
    pub path: Option<Seq<Seq<char>>>,
    pub query: Seq<(QueryParameter, Seq<char>, Seq<char>)>,
}

pub open spec fn texts_of(v: Seq<String>) -> Seq<Seq<char>> {
    v.map_values(|t: String| t@)
}

pub open spec fn entries_of(v: Seq<QueryEntry>) -> Seq<(QueryParameter, Seq<char>, Seq<char>)> {
    v.map_values(|e: QueryEntry| (e.key, e.name@, e.value@))
}

impl View for DidUrl {
    type V = DidUrlView;

    open spec fn view(&self) -> DidUrlView {
        DidUrlView {
            namespace: self.namespace@,
            id: self.id@,
            path: match self.path {
                Some(p) => Some(texts_of(p@)),
                None => None,
            },
            query: entries_of(self.query@),
        }
    }
}

/// The value of the last pair in `q` with key `k`.
pub open spec fn query_value(q: Seq<(QueryParameter, Seq<char>, Seq<char>)>, k: QueryParameter) -> Option<
    Seq<char>,
>
    decreases q.len(),
{
    if q.len() == 0 {
        None
    } else if q.last().0 == k {
        Some(q.last().2)
    } else {
        query_value(q.drop_last(), k)
    }
}

impl DidUrl {
    /// The value given for `k`; where the key comes more than once, the last one.
    pub fn query_get(&self, k: QueryParameter) -> (r: Option<&String>)
        ensures
            match r {
                Some(v) => query_value(self@.query, k) == Some(v@),
                None => query_value(self@.query, k) is None,
            },
    {
        let mut i: usize = self.query.len();
        assert(self@.query.subrange(0, i as int) =~= self@.query);
        while i > 0
            invariant
                i <= self.query.len(),
                query_value(self@.query, k) == query_value(self@.query.subrange(0, i as int), k),
            decreases i,
        {
            let ghost q = self@.query.subrange(0, i as int);
            assert(q.last() == self@.query[i - 1]);
            if self.query[i - 1].key == k {
                return Some(&self.query[i - 1].value);
            }
            assert(q.drop_last() =~= self@.query.subrange(0, i - 1));
            i = i - 1;
        }
        None
    }

    pub fn has_query(&self, k: QueryParameter) -> (r: bool)
        ensures
            r == query_value(self@.query, k) is Some,
    {
        self.query_get(k).is_some()
    }
}

/// Index of the first `c` in `s[i..end]`, or `end`.
pub open spec fn first_of(s: Seq<char>, i: int, end: int, c: char) -> int
    decreases end - i,
{
    if i >= end {
        end
    } else if s[i] == c {
        i
    } else {
        first_of(s, i + 1, end, c)
    }
}

/// Index of the first `/` or `?` from `i` on, or the length.
pub open spec fn did_end(s: Seq<char>, i: int) -> int
    decreases s.len() - i,
{
    if i >= s.len() {
        s.len() as int
    } else if s[i] == '/' || s[i] == '?' {
        i
    } else {
        did_end(s, i + 1)
    }
}

/// Index of the last `:` in `s[lo..hi]`, or `lo - 1`.
pub open spec fn last_colon(s: Seq<char>, lo: int, hi: int) -> int
    decreases hi - lo,
{
    if hi <= lo {
        lo - 1
    } else if s[hi - 1] == ':' {
        hi - 1
    } else {
        last_colon(s, lo, hi - 1)
    }
}

/// The pieces of `s[start..end]` between separators `sep`, as index ranges;
/// `i` is where the scan for the next separator stands.
pub open spec fn pieces(s: Seq<char>, start: int, i: int, end: int, sep: char) -> Seq<(int, int)>
    decreases end - i,
{
    if i >= end {
        seq![(start, end)]
    } else if s[i] == sep {
        seq![(start, i)] + pieces(s, i + 1, i + 1, end, sep)
    } else {
        pieces(s, start, i + 1, end, sep)
    }
}

pub open spec fn has_indy_prefix(s: Seq<char>) -> bool {
    &&& s.len() >= 9
    &&& s[0] == 'd' && s[1] == 'i' && s[2] == 'd' && s[3] == ':'
    &&& s[4] == 'i' && s[5] == 'n' && s[6] == 'd' && s[7] == 'y' && s[8] == ':'
}

/// The decoded texts of the path segments at `ranges`, or `None` if one of
/// them is not valid percent-encoded UTF-8.
pub open spec fn decoded_segments(s: Seq<char>, ranges: Seq<(int, int)>) -> Option<Seq<Seq<char>>>
    decreases ranges.len(),
{
    if ranges.len() == 0 {
        Some(Seq::empty())
    } else {
        let (a, b) = ranges.last();
        match (
            decoded_segments(s, ranges.drop_last()),
            percent_decoded(s.subrange(a, b)),
        ) {
            (Some(done), Some(bytes)) => match utf8_text_of(bytes) {
                Some(t) => Some(done.push(t)),
                None => None,
            },
            _ => None,
        }
    }
}

/// The `name=value` pairs at `ranges`, split at the first `=`; `None` if a
/// pair has no `=`.
pub open spec fn query_entries(s: Seq<char>, ranges: Seq<(int, int)>) -> Option<
    Seq<(QueryParameter, Seq<char>, Seq<char>)>,
>
    decreases ranges.len(),
{
    if ranges.len() == 0 {
        Some(Seq::empty())
    } else {
        let (a, b) = ranges.last();
        let eq = first_of(s, a, b, '=');
        match query_entries(s, ranges.drop_last()) {
            Some(done) => if eq < b {
                let name = s.subrange(a, eq);
                Some(done.push((parameter_of(name), name, s.subrange(eq + 1, b))))
            } else {
                None
            },
            None => None,
        }
    }
}

/// What a DID URL string parses to, or `None` for a malformed one: it starts
/// with `did:indy:`, the namespace (which may itself hold `:`) and the id are
/// split at the last `:` before the path or query and are both non-empty, the
/// path runs from `/` to `?`, and the query holds `&`-separated `name=value` pairs.
pub open spec fn parse_did_url(s: Seq<char>) -> Option<DidUrlView> {
    let e = did_end(s, 9);
    let c = last_colon(s, 9, e);
    let q = first_of(s, e, s.len() as int, '?');
    let path = if e < s.len() && s[e] == '/' {
        decoded_segments(s, pieces(s, e + 1, e + 1, q, '/'))
    } else {
        Some(Seq::empty())
    };
    let query = if q < s.len() {
        query_entries(s, pieces(s, q + 1, q + 1, s.len() as int, '&'))
    } else {
        Some(Seq::empty())
    };
    if !has_indy_prefix(s) || c <= 9 || c + 1 >= e || path is None || query is None {
        None
    } else {
        Some(
            DidUrlView {
                namespace: s.subrange(9, c),
                id: s.subrange(c + 1, e),
                path: if e < s.len() && s[e] == '/' {
                    Some(path->Some_0)
                } else {
                    None
                },
                query: query->Some_0,
            },
        )
    }
}

fn find_char(s: &str, i: usize, end: usize, c: char) -> (r: usize)
    requires
        i <= end <= s@.len(),
    ensures
        r == first_of(s@, i as int, end as int, c),
        i <= r <= end,
        r < end ==> s@[r as int] == c,
{
    let mut k = i;
    while k < end
        invariant
            i <= k <= end <= s@.len(),
            first_of(s@, i as int, end as int, c) == first_of(s@, k as int, end as int, c),
        decreases end - k,
    {
        if s.get_char(k) == c {
            return k;
        }
        k = k + 1;
    }
    k
}

fn split_ranges(s: &str, from: usize, end: usize, sep: char) -> (r: Vec<(usize, usize)>)
    requires
        from <= end <= s@.len(),
    ensures
        r@.len() == pieces(s@, from as int, from as int, end as int, sep).len(),
        forall|j: int|
            0 <= j < r@.len() ==> {
                &&& (#[trigger] r@[j]).0 as int == pieces(s@, from as int, from as int, end as int, sep)[j].0
                &&& r@[j].1 as int == pieces(s@, from as int, from as int, end as int, sep)[j].1
                &&& from <= r@[j].0 <= r@[j].1 <= end
            },
{
    let ghost target = pieces(s@, from as int, from as int, end as int, sep);
    let mut out: Vec<(usize, usize)> = Vec::new();
    let mut start = from;
    let mut i = from;
    while i < end
        invariant
            from <= start <= i <= end <= s@.len(),
            target == pieces(s@, from as int, from as int, end as int, sep),
            target == ranges_view(out@) + pieces(s@, start as int, i as int, end as int, sep),
            forall|j: int|
                0 <= j < out@.len() ==> from <= (#[trigger] out@[j]).0 <= out@[j].1 <= start,
        decreases end - i,
    {
        if s.get_char(i) == sep {
            let ghost prev = ranges_view(out@);
            out.push((start, i));
            assert(ranges_view(out@) =~= prev.push((start as int, i as int)));
            assert(prev + (seq![(start as int, i as int)] + pieces(s@, i + 1, i + 1, end as int, sep))
                =~= prev.push((start as int, i as int)) + pieces(s@, i + 1, i + 1, end as int, sep));
            start = i + 1;
        }
        i = i + 1;
    }
    let ghost prev = ranges_view(out@);
    out.push((start, end));
    assert(ranges_view(out@) =~= prev + seq![(start as int, end as int)]);
    assert forall|j: int| 0 <= j < out@.len() implies {
        &&& (#[trigger] out@[j]).0 as int == target[j].0
        &&& out@[j].1 as int == target[j].1
    } by {
        assert(ranges_view(out@)[j] == target[j]);
    }
    out
}

pub open spec fn ranges_view(v: Seq<(usize, usize)>) -> Seq<(int, int)> {
    v.map_values(|p: (usize, usize)| (p.0 as int, p.1 as int))
}

fn text_range(s: &str, from: usize, to: usize) -> (r: String)
    requires
        from <= to <= s@.len(),
    ensures
        r@ == s@.subrange(from as int, to as int),
{
    String::from_str(s.substring_char(from, to))
}

fn parameter_from(name: &String) -> (r: QueryParameter)
    ensures
        r == parameter_of(name@),
{
    if *name == String::from_str("versionId") {
        QueryParameter::VersionId
    } else if *name == String::from_str("versionTime") {
        QueryParameter::VersionTime
    } else if *name == String::from_str("from") {
        QueryParameter::From
    } else if *name == String::from_str("to") {
        QueryParameter::To
    } else {
        QueryParameter::Other
    }
}

impl DidUrl {
    /// Parses a DID URL; fails with a `Resolver` error exactly when
    /// `parse_did_url` has no value for it.
    pub fn from_str(s: &str) -> (r: Result<DidUrl, VdrError>)
        ensures
            match r {
                Ok(u) => parse_did_url(s@) == Some(u@),
                Err(e) => parse_did_url(s@) is None && e.kind == VdrErrorKind::Resolver,
            },
    {
        let len = s.unicode_len();
        let ghost sv = s@;
        if len < 9 || s.get_char(0) != 'd' || s.get_char(1) != 'i' || s.get_char(2) != 'd'
            || s.get_char(3) != ':' || s.get_char(4) != 'i' || s.get_char(5) != 'n'
            || s.get_char(6) != 'd' || s.get_char(7) != 'y' || s.get_char(8) != ':' {
            return Err(resolver_error("Invalid DID URL"));
        }
        let e = find_did_end(s, 9);
        let c = find_after_last_colon(s, 9, e);
        if c <= 10 || c >= e {
            return Err(resolver_error("Invalid DID URL"));
        }
        let colon = c - 1;
        let q = find_char(s, e, len, '?');
        let namespace = text_range(s, 9, colon);
        let id = text_range(s, colon + 1, e);
        let path = if e < len && s.get_char(e) == '/' {
            let ranges = split_ranges(s, e + 1, q, '/');
            assert(ranges_view(ranges@) =~= pieces(sv, e + 1, e + 1, q as int, '/'));
            match decode_segments(s, &ranges) {
                Some(segs) => Some(segs),
                None => {
                    return Err(resolver_error("Invalid DID URL: bad path segment"));
                },
            }
        } else {
            None
        };
        let query = if q < len {
            let ranges = split_ranges(s, q + 1, len, '&');
            assert(ranges_view(ranges@) =~= pieces(sv, q + 1, q + 1, len as int, '&'));
            match read_query(s, &ranges) {
                Some(entries) => entries,
                None => {
                    return Err(resolver_error("Invalid DID URL: bad query"));
                },
            }
        } else {
            Vec::new()
        };
        let r = DidUrl { namespace, id, path, query };
        proof {
            if e < len && sv[e as int] == '/' {
                assert(r@.path == decoded_segments(sv, pieces(sv, e + 1, e + 1, q as int, '/')));
            }
            let m = parse_did_url(sv)->Some_0;
            assert(r@.namespace == m.namespace);
            assert(r@.id == m.id);
            assert(r@.path == m.path);
            assert(r@.query == m.query);
            assert(r@ == m);
        }
        Ok(r)
    }
}

fn find_did_end(s: &str, i: usize) -> (r: usize)
    requires
        i <= s@.len(),
    ensures
        r == did_end(s@, i as int),
        i <= r <= s@.len(),
{
    let len = s.unicode_len();
    let mut k = i;
    while k < len
        invariant
            i <= k <= len == s@.len(),
            did_end(s@, i as int) == did_end(s@, k as int),
        decreases len - k,
    {
        let ch = s.get_char(k);
        if ch == '/' || ch == '?' {
            return k;
        }
        k = k + 1;
    }
    k
}

/// One past the last `:` in `s[lo..hi]`, or `lo` when there is none.
fn find_after_last_colon(s: &str, lo: usize, hi: usize) -> (r: usize)
    requires
        lo <= hi <= s@.len(),
    ensures
        r == last_colon(s@, lo as int, hi as int) + 1,
        lo <= r <= hi,
{
    let mut k = hi;
    while k > lo
        invariant
            lo <= k <= hi <= s@.len(),
            last_colon(s@, lo as int, hi as int) == last_colon(s@, lo as int, k as int),
        decreases k,
    {
        if s.get_char(k - 1) == ':' {
            return k;
        }
        k = k - 1;
    }
    k
}

proof fn lemma_segments_stay_invalid(s: Seq<char>, r: Seq<(int, int)>, i: int)
    requires
        0 <= i <= r.len(),
        decoded_segments(s, r.subrange(0, i)) is None,
    ensures
        decoded_segments(s, r) is None,
    decreases r.len() - i,
{
    if i < r.len() {
        assert(r.subrange(0, i + 1).drop_last() =~= r.subrange(0, i));
        lemma_segments_stay_invalid(s, r, i + 1);
    } else {
        assert(r.subrange(0, i) =~= r);
    }
}

proof fn lemma_entries_stay_invalid(s: Seq<char>, r: Seq<(int, int)>, i: int)
    requires
        0 <= i <= r.len(),
        query_entries(s, r.subrange(0, i)) is None,
    ensures
        query_entries(s, r) is None,
    decreases r.len() - i,
{
    if i < r.len() {
        assert(r.subrange(0, i + 1).drop_last() =~= r.subrange(0, i));
        lemma_entries_stay_invalid(s, r, i + 1);
    } else {
        assert(r.subrange(0, i) =~= r);
    }
}

fn decode_segments(s: &str, ranges: &Vec<(usize, usize)>) -> (r: Option<Vec<String>>)
    requires
        forall|j: int| 0 <= j < ranges@.len() ==> (#[trigger] ranges@[j]).0 <= ranges@[j].1 <= s@.len(),
    ensures
        match r {
            Some(v) => decoded_segments(s@, ranges_view(ranges@)) == Some(texts_of(v@)),
            None => decoded_segments(s@, ranges_view(ranges@)) is None,
        },
{
    let mut out: Vec<String> = Vec::new();
    let mut i: usize = 0;
    while i < ranges.len()
        invariant
            i <= ranges@.len(),
            forall|j: int| 0 <= j < ranges@.len() ==> (#[trigger] ranges@[j]).0 <= ranges@[j].1 <= s@.len(),
            decoded_segments(s@, ranges_view(ranges@).subrange(0, i as int)) == Some(texts_of(out@)),
        decreases ranges.len() - i,
    {
        let (a, b) = ranges[i];
        let ghost sub = ranges_view(ranges@).subrange(0, i + 1);
        assert(sub.drop_last() =~= ranges_view(ranges@).subrange(0, i as int));
        assert(sub.last() == (a as int, b as int));
        match percent_decode_range(s, a, b) {
            Some(bytes) => match text_from_utf8(bytes) {
                Some(t) => {
                    let ghost prev = out@;
                    out.push(t);
                    assert(texts_of(out@) =~= texts_of(prev).push(t@));
                },
                None => {
                    proof {
                        lemma_segments_stay_invalid(s@, ranges_view(ranges@), i + 1);
                    }
                    return None;
                },
            },
            None => {
                proof {
                    lemma_segments_stay_invalid(s@, ranges_view(ranges@), i + 1);
                }
                return None;
            },
        }
        i = i + 1;
    }
    assert(ranges_view(ranges@).subrange(0, i as int) =~= ranges_view(ranges@));
    Some(out)
}

fn read_query(s: &str, ranges: &Vec<(usize, usize)>) -> (r: Option<Vec<QueryEntry>>)
    requires
        forall|j: int| 0 <= j < ranges@.len() ==> (#[trigger] ranges@[j]).0 <= ranges@[j].1 <= s@.len(),
    ensures
        match r {
            Some(v) => query_entries(s@, ranges_view(ranges@)) == Some(entries_of(v@)),
            None => query_entries(s@, ranges_view(ranges@)) is None,
        },
{
    let mut out: Vec<QueryEntry> = Vec::new();
    let mut i: usize = 0;
    while i < ranges.len()
        invariant
            i <= ranges@.len(),
            forall|j: int| 0 <= j < ranges@.len() ==> (#[trigger] ranges@[j]).0 <= ranges@[j].1 <= s@.len(),
            query_entries(s@, ranges_view(ranges@).subrange(0, i as int)) == Some(entries_of(out@)),
        decreases ranges.len() - i,
    {
        let (a, b) = ranges[i];
        let ghost sub = ranges_view(ranges@).subrange(0, i + 1);
        assert(sub.drop_last() =~= ranges_view(ranges@).subrange(0, i as int));
        assert(sub.last() == (a as int, b as int));
        let eq = find_char(s, a, b, '=');
        if eq >= b {
            proof {
                lemma_entries_stay_invalid(s@, ranges_view(ranges@), i + 1);
            }
            return None;
        }
        let name = text_range(s, a, eq);
        let value = text_range(s, eq + 1, b);
        let key = parameter_from(&name);
        let ghost prev = out@;
        out.push(QueryEntry { key, name, value });
        assert(entries_of(out@) =~= entries_of(prev).push((key, s@.subrange(a as int, eq as int), s@.subrange(eq + 1, b as int))));
        i = i + 1;
    }
    assert(ranges_view(ranges@).subrange(0, i as int) =~= ranges_view(ranges@));
    Some(out)
}

} // verus!
