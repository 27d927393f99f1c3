//! Character-level helpers: the pieces of `str`'s splitting and searching
//! that the command and request logic rely on, stated over `Seq<char>`.
use vstd::prelude::*;

verus! {

/// Rust's `char::is_whitespace`: the Unicode `White_Space` property.
pub open spec fn is_ws(c: char) -> bool {
    ||| c == '\t' || c == '\n' || c == '\u{0B}' || c == '\u{0C}' || c == '\r' || c == ' '
    ||| c == '\u{85}' || c == '\u{A0}' || c == '\u{1680}'
    ||| ('\u{2000}' <= c && c <= '\u{200A}')
    ||| c == '\u{2028}' || c == '\u{2029}' || c == '\u{202F}' || c == '\u{205F}' || c == '\u{3000}'
}

pub fn is_whitespace(c: char) -> (r: bool)
    ensures
        r == is_ws(c),
{
    c == '\t' || c == '\n' || c == '\u{0B}' || c == '\u{0C}' || c == '\r' || c == ' ' || c
        == '\u{85}' || c == '\u{A0}' || c == '\u{1680}' || ('\u{2000}' <= c && c <= '\u{200A}')
        || c == '\u{2028}' || c == '\u{2029}' || c == '\u{202F}' || c == '\u{205F}' || c
        == '\u{3000}'
}

pub open spec fn starts_with(s: Seq<char>, p: Seq<char>) -> bool {
    p.len() <= s.len() && s.subrange(0, p.len() as int) == p
}

pub open spec fn ends_with(s: Seq<char>, p: Seq<char>) -> bool {
    p.len() <= s.len() && s.subrange(s.len() - p.len(), s.len() as int) == p
}

/// The pieces of `s` between occurrences of `c`, as `str::split(c)` yields them.
pub open spec fn split_char(s: Seq<char>, c: char) -> Seq<Seq<char>>
    decreases s.len(),
{
    if s.len() == 0 {
        seq![Seq::<char>::empty()]
    } else {
        let p = split_char(s.drop_last(), c);
        if s.last() == c {
            p.push(Seq::<char>::empty())
        } else {
            p.update(p.len() - 1, p.last().push(s.last()))
        }
    }
}

/// The pieces of `s` between whitespace characters, empty pieces included.
pub open spec fn split_ws(s: Seq<char>) -> Seq<Seq<char>>
    decreases s.len(),
{
    if s.len() == 0 {
        seq![Seq::<char>::empty()]
    } else {
        let p = split_ws(s.drop_last());
        if is_ws(s.last()) {
            p.push(Seq::<char>::empty())
        } else {
            p.update(p.len() - 1, p.last().push(s.last()))
        }
    }
}

/// The non-empty members of `ps`, in order.
pub open spec fn non_empty(ps: Seq<Seq<char>>) -> Seq<Seq<char>>
    decreases ps.len(),
{
    if ps.len() == 0 {
        Seq::empty()
    } else {
        let r = non_empty(ps.drop_last());
        if ps.last().len() > 0 {
            r.push(ps.last())
        } else {
            r
        }
    }
}

/// What `str::split_whitespace` yields: the maximal runs of non-whitespace characters.
pub open spec fn words(s: Seq<char>) -> Seq<Seq<char>> {
    non_empty(split_ws(s))
}

/// The views of a sequence of strings.
pub open spec fn views(v: Seq<String>) -> Seq<Seq<char>> {
    Seq::new(v.len(), |i: int| v[i]@)
}

/// What the client reads out of `token` with `find(sep)` and
/// `split(sep).nth(0)` / `split(sep).nth(1)`: the first two pieces when `sep`
/// occurs, else the whole token and an empty value.
pub open spec fn key_value(t: Seq<char>, sep: char) -> (Seq<char>, Seq<char>) {
    if t.contains(sep) {
        (split_char(t, sep)[0], split_char(t, sep)[1])
    } else {
        (t, Seq::empty())
    }
}

/// The pairs that a whitespace-separated list of `key<sep>value` tokens stands for.
pub open spec fn key_values(s: Seq<char>, sep: char) -> Seq<(Seq<char>, Seq<char>)> {
    words(s).map_values(|w: Seq<char>| key_value(w, sep))
}

pub proof fn lemma_split_char_len(s: Seq<char>, c: char)
    ensures
        split_char(s, c).len() >= 1,
        s.contains(c) ==> split_char(s, c).len() >= 2,
    decreases s.len(),
{
    if s.len() > 0 {
        lemma_split_char_len(s.drop_last(), c);
        if s.contains(c) && s.last() != c {
            let i = choose|i: int| 0 <= i < s.len() && s[i] == c;
            assert(s.drop_last()[i] == c);
        }
    }
}

/// Appends a character to a string (`String::push`).
#[verifier::external_body]
pub(crate) fn push_char(s: &mut String, c: char)
    ensures
        final(s)@ == old(s)@.push(c),
{
    s.push(c);
}

/// The characters of `s`, in order.
pub fn chars_of(s: &str) -> (r: Vec<char>)
    ensures
        r@ == s@,
{
    let mut v: Vec<char> = Vec::new();
    for c in it: s.chars()
        invariant
            v@ == it.seq().take(it.index() as int),
    {
        v.push(c);
    }
    v
}

/// The string made of the characters `v[from..to]`.
pub fn string_of_range(v: &Vec<char>, from: usize, to: usize) -> (r: String)
    requires
        from <= to <= v.len(),
    ensures
        r@ == v@.subrange(from as int, to as int),
{
    let mut s = String::new();
    let mut i = from;
    while i < to
        invariant
            from <= i <= to <= v.len(),
            s@ == v@.subrange(from as int, i as int),
        decreases to - i,
    {
        push_char(&mut s, v[i]);
        i = i + 1;
        assert(s@ =~= v@.subrange(from as int, i as int));
    }
    s
}

pub fn seq_starts_with(s: &Vec<char>, p: &Vec<char>) -> (r: bool)
    ensures
        r == starts_with(s@, p@),
{
    if p.len() > s.len() {
        return false;
    }
    let mut i: usize = 0;
    while i < p.len()
        invariant
            p.len() <= s.len(),
            i <= p.len(),
            forall|j: int| 0 <= j < i ==> s@[j] == p@[j],
        decreases p.len() - i,
    {
        if s[i] != p[i] {
            assert(s@.subrange(0, p.len() as int)[i as int] != p@[i as int]);
            return false;
        }
        i = i + 1;
    }
    assert(s@.subrange(0, p.len() as int) =~= p@);
    true
}

pub fn seq_ends_with(s: &Vec<char>, p: &Vec<char>) -> (r: bool)
    ensures
        r == ends_with(s@, p@),
{
    if p.len() > s.len() {
        return false;
    }
    let off = s.len() - p.len();
    let mut i: usize = 0;
    while i < p.len()
        invariant
            p.len() <= s.len(),
            off == s.len() - p.len(),
            i <= p.len(),
            forall|j: int| 0 <= j < i ==> s@[off + j] == p@[j],
        decreases p.len() - i,
    {
        if s[off + i] != p[i] {
            assert(s@.subrange(off as int, s.len() as int)[i as int] != p@[i as int]);
            return false;
        }
        i = i + 1;
    }
    assert(s@.subrange(off as int, s.len() as int) =~= p@);
    true
}

/// Whether `s` ends with the literal `p`.
pub fn str_ends_with(s: &str, p: &str) -> (r: bool)
    ensures
        r == ends_with(s@, p@),
{
    let sv = chars_of(s);
    let pv = chars_of(p);
    seq_ends_with(&sv, &pv)
}

/// Whether `s` starts with the literal `p`.
pub fn str_starts_with(s: &str, p: &str) -> (r: bool)
    ensures
        r == starts_with(s@, p@),
{
    let sv = chars_of(s);
    let pv = chars_of(p);
    seq_starts_with(&sv, &pv)
}

/// Whether `a` and `b` hold the same characters.
pub fn str_eq(a: &str, b: &str) -> (r: bool)
    ensures
        r == (a@ == b@),
{
    let av = chars_of(a);
    let bv = chars_of(b);
    if av.len() != bv.len() {
        assert(av@.len() != bv@.len());
        return false;
    }
    let r = seq_starts_with(&av, &bv);
    assert(av@.subrange(0, bv@.len() as int) =~= av@);
    r
}

/// The index of the first `c` in `s`, as `str::find(c)` counts in characters.
pub fn find_char(s: &Vec<char>, c: char) -> (r: Option<usize>)
    ensures
        r matches Some(i) ==> i < s@.len() && s@[i as int] == c && forall|j: int|
            0 <= j < i ==> s@[j] != c,
        r is None ==> !s@.contains(c),
{
    let mut i: usize = 0;
    while i < s.len()
        invariant
            i <= s.len(),
            forall|j: int| 0 <= j < i ==> s@[j] != c,
        decreases s.len() - i,
    {
        if s[i] == c {
            return Some(i);
        }
        i = i + 1;
    }
    None
}

/// `s.split(c)`, each piece as a string.
pub fn split_on(s: &Vec<char>, c: char) -> (r: Vec<String>)
    ensures
        views(r@) == split_char(s@, c),
{
    let mut done: Vec<String> = Vec::new();
    let mut cur = String::new();
    let mut i: usize = 0;
    assert(s@.take(0) =~= Seq::<char>::empty());
    assert(views(done@).push(cur@) =~= seq![Seq::<char>::empty()]);
    while i < s.len()
        invariant
            i <= s.len(),
            split_char(s@.take(i as int), c) == views(done@).push(cur@),
        decreases s.len() - i,
    {
        let ghost pre = s@.take(i as int);
        let ghost ps = split_char(pre, c);
        assert(s@.take(i + 1).drop_last() =~= pre);
        let ghost dv = done@;
        if s[i] == c {
            done.push(cur);
            cur = String::new();
            assert(views(done@) =~= views(dv).push(ps.last()));
            assert(views(done@).push(cur@) =~= ps.push(Seq::<char>::empty()));
        } else {
            push_char(&mut cur, s[i]);
            assert(views(done@).push(cur@) =~= ps.update(
                ps.len() - 1,
                ps.last().push(s@[i as int]),
            ));
        }
        i = i + 1;
    }
    assert(s@.take(s.len() as int) =~= s@);
    let ghost dv = done@;
    done.push(cur);
    assert(views(done@) =~= views(dv).push(cur@));
    done
}

/// `s.split_whitespace()`, each word as a string.
pub fn split_words(s: &Vec<char>) -> (r: Vec<String>)
    ensures
        views(r@) == words(s@),
{
    let mut done: Vec<String> = Vec::new();
    let mut cur = String::new();
    let mut i: usize = 0;
    assert(s@.take(0) =~= Seq::<char>::empty());
    assert(views(done@) =~= Seq::<Seq<char>>::empty());
    while i < s.len()
        invariant
            i <= s.len(),
            split_ws(s@.take(i as int)).len() >= 1,
            views(done@) == non_empty(split_ws(s@.take(i as int)).drop_last()),
            cur@ == split_ws(s@.take(i as int)).last(),
        decreases s.len() - i,
    {
        let ghost pre = s@.take(i as int);
        let ghost ps = split_ws(pre);
        assert(s@.take(i + 1).drop_last() =~= pre);
        let ghost dv = done@;
        if is_whitespace(s[i]) {
            let ghost ps2 = ps.push(Seq::<char>::empty());
            assert(ps2.drop_last() =~= ps);
            if !cur.as_str().is_empty() {
                done.push(cur);
                assert(views(done@) =~= views(dv).push(ps.last()));
            }
            cur = String::new();
        } else {
            let ghost ps2 = ps.update(ps.len() - 1, ps.last().push(s@[i as int]));
            assert(ps2.drop_last() =~= ps.drop_last());
            push_char(&mut cur, s[i]);
        }
        i = i + 1;
    }
    assert(s@.take(s.len() as int) =~= s@);
    let ghost ps = split_ws(s@);
    let ghost dv = done@;
    if !cur.as_str().is_empty() {
        done.push(cur);
        assert(views(done@) =~= views(dv).push(ps.last()));
    }
    done
}

} // verus!
