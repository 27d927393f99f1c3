//! The two regular expressions of the client, matched by the `regex` crate,
//! and what a match of each gives back, stated over characters.
use vstd::prelude::*;
use crate::text::starts_with;

verus! {

/// An S3 address: `s3://` or `S3://`, a bucket name, then an object path.
pub const S3_FORMAT: &'static str = r#"[sS]3://(?P<bucket>[A-Za-z0-9\-\._]+)(?P<object>[A-Za-z0-9\-\._/]*)"#;

/// A key in a JSON bucket listing: `"Contents":["<key>"...]`.
pub const RESPONSE_FORMAT: &'static str = r#""Contents":\["([A-Za-z0-9\-\._]+?)"(.*?)\]"#;

/// The class `[A-Za-z0-9\-\._]`.
pub open spec fn is_name_char(c: char) -> bool {
    ('A' <= c && c <= 'Z') || ('a' <= c && c <= 'z') || ('0' <= c && c <= '9') || c == '-' || c
        == '.' || c == '_'
}

/// The class `[A-Za-z0-9\-\._/]`.
pub open spec fn is_path_char(c: char) -> bool {
    is_name_char(c) || c == '/'
}

/// The end of the run of name characters that starts at `j`.
pub open spec fn name_run_end(s: Seq<char>, j: int) -> int
    decreases s.len() - j,
{
    if 0 <= j < s.len() && is_name_char(s[j]) {
        name_run_end(s, j + 1)
    } else {
        j
    }
}

/// The end of the run of path characters that starts at `j`.
pub open spec fn path_run_end(s: Seq<char>, j: int) -> int
    decreases s.len() - j,
{
    if 0 <= j < s.len() && is_path_char(s[j]) {
        path_run_end(s, j + 1)
    } else {
        j
    }
}

/// `[sS]3://` followed by a name character stands at `i`.
pub open spec fn s3_match_at(s: Seq<char>, i: int) -> bool {
    &&& 0 <= i
    &&& i + 5 < s.len()
    &&& (s[i] == 's' || s[i] == 'S')
    &&& s[i + 1] == '3' && s[i + 2] == ':' && s[i + 3] == '/' && s[i + 4] == '/'
    &&& is_name_char(s[i + 5])
}

/// The leftmost position at or after `i` where an S3 address starts.
pub open spec fn first_s3_match(s: Seq<char>, i: int) -> Option<int>
    decreases s.len() - i,
{
    if i < 0 || i >= s.len() {
        None
    } else if s3_match_at(s, i) {
        Some(i)
    } else {
        first_s3_match(s, i + 1)
    }
}

/// The `bucket` and `object` groups of the leftmost match of `S3_FORMAT` in `s`:
/// the bucket is the whole run of name characters after the scheme, the
/// object the whole run of path characters after that.
pub open spec fn s3_captures(s: Seq<char>) -> Option<(Seq<char>, Seq<char>)> {
    match first_s3_match(s, 0) {
        Some(i) => {
            let b_end = name_run_end(s, i + 5);
            let o_end = path_run_end(s, b_end);
            Some((s.subrange(i + 5, b_end), s.subrange(b_end, o_end)))
        },
        None => None,
    }
}

/// The first `]` at or after `p` with no line break before it (what `.*?\]` reaches).
pub open spec fn close_bracket(s: Seq<char>, p: int) -> Option<int>
    decreases s.len() - p,
{
    if p < 0 || p >= s.len() {
        None
    } else if s[p] == ']' {
        Some(p)
    } else if s[p] == '\n' {
        None
    } else {
        close_bracket(s, p + 1)
    }
}

/// `"Contents":["` stands at `i`.
pub open spec fn contents_prefix_at(s: Seq<char>, i: int) -> bool {
    0 <= i && i + 13 <= s.len() && s.subrange(i, i + 13) == seq![
        '"',
        'C',
        'o',
        'n',
        't',
        'e',
        'n',
        't',
        's',
        '"',
        ':',
        '[',
        '"',
    ]
}

/// A match of `RESPONSE_FORMAT` that starts at `i`: the end of its key and of the match.
pub open spec fn response_match_at(s: Seq<char>, i: int) -> Option<(int, int)> {
    if contents_prefix_at(s, i) {
        let key_end = name_run_end(s, i + 13);
        if key_end > i + 13 && key_end < s.len() && s[key_end] == '"' {
            match close_bracket(s, key_end + 1) {
                Some(k) => Some((key_end, k + 1)),
                None => None,
            }
        } else {
            None
        }
    } else {
        None
    }
}

/// Group 1 of each successive non-overlapping match of `RESPONSE_FORMAT`
/// in `s`, searching from `p`.
pub open spec fn response_keys_from(s: Seq<char>, p: int) -> Seq<Seq<char>>
    decreases s.len() - p,
{
    if p < 0 || p >= s.len() {
        Seq::empty()
    } else {
        match response_match_at(s, p) {
            Some((key_end, end)) => if p < end <= s.len() {
                seq![s.subrange(p + 13, key_end)] + response_keys_from(s, end)
            } else {
                Seq::empty()
            },
            None => response_keys_from(s, p + 1),
        }
    }
}

pub open spec fn response_keys(s: Seq<char>) -> Seq<Seq<char>> {
    response_keys_from(s, 0)
}

/// `Regex::new(S3_FORMAT)` and `captures`: the `bucket` and `object` groups
/// of the leftmost match in `s`. The contract claims that the regex crate's
/// leftmost-first search with greedy classes gives exactly `s3_captures`.
#[verifier::external_body]
pub(crate) fn regex_s3_captures(s: &str) -> (r: Option<(String, String)>)
    ensures
        match r {
            Some((b, o)) => s3_captures(s@) == Some((b@, o@)),
            None => s3_captures(s@) is None,
        },
{
    let re = regex::Regex::new(S3_FORMAT).unwrap();
    re.captures(s).map(|c| (c["bucket"].to_string(), c["object"].to_string()))
}

/// `Regex::new(RESPONSE_FORMAT)` and `captures_iter`, group 1 of each match.
/// The contract claims that the regex crate's successive leftmost-first,
/// non-overlapping matches with lazy repetitions give exactly `response_keys`.
#[verifier::external_body]
pub(crate) fn regex_response_keys(s: &str) -> (r: Vec<String>)
    ensures
        r.deep_view() == response_keys(s@),
{
    let re = regex::Regex::new(RESPONSE_FORMAT).unwrap();
    re.captures_iter(s).map(|c| c[1].to_string()).collect()
}

/// The bucket and object path of an S3 address.
pub struct S3Address {
    pub bucket: String,
    pub object: String,
}

/// Reads an S3 address out of `s` as `S3_FORMAT` matches it; `None` where nothing matches.
pub fn s3_address(s: &str) -> (r: Option<S3Address>)
    ensures
        match r {
            Some(a) => s3_captures(s@) == Some((a.bucket@, a.object@)),
            None => s3_captures(s@) is None,
        },
{
    match regex_s3_captures(s) {
        Some((bucket, object)) => Some(S3Address { bucket, object }),
        None => None,
    }
}

/// The keys that a JSON object listing names, as `RESPONSE_FORMAT` finds them.
pub fn json_listing_keys(body: &str) -> (r: Vec<String>)
    ensures
        r.deep_view() == response_keys(body@),
{
    regex_response_keys(body)
}

/// The scheme `s3://` that the client writes before an address.
pub open spec fn s3_scheme() -> Seq<char> {
    seq!['s', '3', ':', '/', '/']
}

proof fn lemma_name_run(s: Seq<char>, j: int, e: int)
    requires
        0 <= j <= e <= s.len(),
        forall|k: int| j <= k < e ==> is_name_char(s[k]),
        e == s.len() || !is_name_char(s[e]),
    ensures
        name_run_end(s, j) == e,
    decreases e - j,
{
    if j < e {
        lemma_name_run(s, j + 1, e);
    }
}

proof fn lemma_path_run(s: Seq<char>, j: int, e: int)
    requires
        0 <= j <= e <= s.len(),
        forall|k: int| j <= k < e ==> is_path_char(s[k]),
        e == s.len() || !is_path_char(s[e]),
    ensures
        path_run_end(s, j) == e,
    decreases e - j,
{
    if j < e {
        lemma_path_run(s, j + 1, e);
    }
}

/// An address written as `s3://` + bucket + object path is read back as that
/// bucket and that object path, provided the bucket is a non-empty run of
/// name characters and the object path is empty or starts with `/` and holds
/// only path characters.
pub proof fn law_s3_address_round_trip(bucket: Seq<char>, object: Seq<char>)
    requires
        bucket.len() > 0,
        forall|k: int| 0 <= k < bucket.len() ==> is_name_char(bucket[k]),
        forall|k: int| 0 <= k < object.len() ==> is_path_char(object[k]),
        object.len() == 0 || object[0] == '/',
    ensures
        s3_captures(s3_scheme() + bucket + object) == Some((bucket, object)),
{
    let s = s3_scheme() + bucket + object;
    let b_end: int = 5 + bucket.len() as int;
    assert(s3_match_at(s, 0));
    assert(first_s3_match(s, 0) == Some(0int));
    assert forall|k: int| 5 <= k < b_end implies is_name_char(s[k]) by {
        assert(s[k] == bucket[k - 5]);
    }
    if object.len() > 0 {
        assert(s[b_end] == '/');
    }
    lemma_name_run(s, 5, b_end);
    assert forall|k: int| b_end <= k < s.len() implies is_path_char(s[k]) by {
        assert(s[k] == object[k - b_end]);
    }
    lemma_path_run(s, b_end, s.len() as int);
    assert(s.subrange(5, b_end) =~= bucket);
    assert(s.subrange(b_end, s.len() as int) =~= object);
}

} // verus!
