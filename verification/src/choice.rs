//! Choosing one of several configurations: the numbered menu lines and the
//! reading of the answer.
use vstd::prelude::*;
use crate::text::{chars_of, push_char};

verus! {

/// The characters of `s` without its line breaks (`replace("\n", "")`).
pub open spec fn without_newlines(s: Seq<char>) -> Seq<char>
    decreases s.len(),
{
    if s.len() == 0 {
        s
    } else if s.last() == '\n' {
        without_newlines(s.drop_last())
    } else {
        without_newlines(s.drop_last()).push(s.last())
    }
}

pub open spec fn is_digit(c: char) -> bool {
    '0' <= c && c <= '9'
}

/// The value of a run of decimal digits.
pub open spec fn decimal_value(s: Seq<char>) -> int
    decreases s.len(),
{
    if s.len() == 0 {
        0
    } else {
        10 * decimal_value(s.drop_last()) + (s.last() as int - '0' as int)
    }
}

/// The digits of a number: without a leading `+`.
pub open spec fn digits_part(s: Seq<char>) -> Seq<char> {
    if s.len() > 0 && s[0] == '+' {
        s.drop_first()
    } else {
        s
    }
}

pub open spec fn all_digits(d: Seq<char>) -> bool {
    forall|i: int| 0 <= i < d.len() ==> is_digit(#[trigger] d[i])
}

/// What `usize::from_str` reads: an optional `+`, then at least one digit,
/// with a value that fits in `usize`.
pub open spec fn parse_usize(s: Seq<char>) -> Option<int> {
    let d = digits_part(s);
    if d.len() > 0 && all_digits(d) && decimal_value(d) <= usize::MAX {
        Some(decimal_value(d))
    } else {
        None
    }
}

/// The number that an answer chooses: the answer without line breaks read
/// as a number, kept only when it lies in `min..=max`.
pub open spec fn choice_of(line: Seq<char>, min: int, max: int) -> Option<int> {
    match parse_usize(without_newlines(line)) {
        Some(x) => if min <= x <= max {
            Some(x)
        } else {
            None
        },
        None => None,
    }
}

proof fn lemma_decimal_value_nonneg(s: Seq<char>)
    requires
        forall|i: int| 0 <= i < s.len() ==> is_digit(#[trigger] s[i]),
    ensures
        decimal_value(s) >= 0,
    decreases s.len(),
{
    if s.len() > 0 {
        lemma_decimal_value_nonneg(s.drop_last());
    }
}

/// A longer run of digits is worth at least as much as its prefix.
proof fn lemma_decimal_value_prefix(s: Seq<char>, k: int)
    requires
        0 <= k <= s.len(),
        forall|i: int| 0 <= i < s.len() ==> is_digit(#[trigger] s[i]),
    ensures
        decimal_value(s.take(k)) <= decimal_value(s),
    decreases s.len() - k,
{
    if k < s.len() {
        lemma_decimal_value_prefix(s, k + 1);
        assert(s.take(k + 1).drop_last() =~= s.take(k));
        assert(is_digit(s[k]));
        lemma_decimal_value_nonneg(s.take(k));
    } else {
        assert(s.take(k) =~= s);
    }
}

fn without_newline_chars(s: &Vec<char>) -> (r: Vec<char>)
    ensures
        r@ == without_newlines(s@),
{
    let mut out: Vec<char> = Vec::new();
    let mut i: usize = 0;
    while i < s.len()
        invariant
            i <= s.len(),
            out@ == without_newlines(s@.take(i as int)),
        decreases s.len() - i,
    {
        assert(s@.take(i + 1).drop_last() =~= s@.take(i as int));
        if s[i] != '\n' {
            out.push(s[i]);
        }
        i = i + 1;
    }
    assert(s@.take(s.len() as int) =~= s@);
    out
}

/// `usize::from_str` of the characters `s`.
pub fn parse_number(s: &Vec<char>) -> (r: Option<usize>)
    ensures
        match r {
            Some(x) => parse_usize(s@) == Some(x as int),
            None => parse_usize(s@) is None,
        },
{
    let start: usize = if s.len() > 0 && s[0] == '+' { 1 } else { 0 };
    let ghost d = s@.skip(start as int);
    assert(d =~= digits_part(s@));
    if start >= s.len() {
        assert(d.len() == 0);
        assert(parse_usize(s@) is None);
        return None;
    }
    let mut acc: usize = 0;
    let mut i: usize = start;
    assert(d.take(0) =~= Seq::<char>::empty());
    while i < s.len()
        invariant
            start <= i <= s.len(),
            d == s@.skip(start as int),
            d == digits_part(s@),
            d.len() > 0,
            forall|j: int| 0 <= j < i - start ==> is_digit(#[trigger] d[j]),
            acc as int == decimal_value(d.take(i - start)),
        decreases s.len() - i,
    {
        let c = s[i];
        assert(d[i - start] == c);
        if !('0' <= c && c <= '9') {
            assert(!is_digit(d[i - start]));
            assert(i - start < d.len());
            assert(!all_digits(d));
            assert(parse_usize(s@) is None);
            return None;
        }
        let digit = (c as u32 - '0' as u32) as usize;
        assert(d.take(i - start + 1).drop_last() =~= d.take(i - start));
        let next = match acc.checked_mul(10) {
            Some(m) => m.checked_add(digit),
            None => None,
        };
        match next {
            Some(v) => {
                acc = v;
            },
            None => {
                proof {
                    assert(decimal_value(d.take(i - start + 1)) == 10 * acc + digit);
                    assert(10 * acc + digit > usize::MAX);
                    if all_digits(d) {
                        lemma_decimal_value_prefix(d, i - start + 1);
                    }
                    assert(parse_usize(s@) is None);
                }
                return None;
            },
        }
        i = i + 1;
    }
    assert(d.take(i - start) =~= d);
    Some(acc)
}

/// The number that an answer to the menu chooses, if it is one in `min..=max`.
pub fn parse_choice(line: &str, min: usize, max: usize) -> (r: Option<usize>)
    ensures
        match r {
            Some(x) => choice_of(line@, min as int, max as int) == Some(x as int),
            None => choice_of(line@, min as int, max as int) is None,
        },
{
    let chars = chars_of(line);
    let trimmed = without_newline_chars(&chars);
    match parse_number(&trimmed) {
        Some(x) => if min <= x && x <= max {
            Some(x)
        } else {
            None
        },
        None => None,
    }
}

/// The decimal digits of `n`.
pub open spec fn decimal(n: nat) -> Seq<char>
    decreases n,
{
    if n < 10 {
        seq![digit_char(n)]
    } else {
        decimal(n / 10).push(digit_char(n % 10))
    }
}

pub open spec fn digit_char(d: nat) -> char {
    if d == 0 {
        '0'
    } else if d == 1 {
        '1'
    } else if d == 2 {
        '2'
    } else if d == 3 {
        '3'
    } else if d == 4 {
        '4'
    } else if d == 5 {
        '5'
    } else if d == 6 {
        '6'
    } else if d == 7 {
        '7'
    } else if d == 8 {
        '8'
    } else {
        '9'
    }
}

fn digit(d: usize) -> (r: char)
    requires
        d < 10,
    ensures
        r == digit_char(d as nat),
{
    if d == 0 {
        '0'
    } else if d == 1 {
        '1'
    } else if d == 2 {
        '2'
    } else if d == 3 {
        '3'
    } else if d == 4 {
        '4'
    } else if d == 5 {
        '5'
    } else if d == 6 {
        '6'
    } else if d == 7 {
        '7'
    } else if d == 8 {
        '8'
    } else {
        '9'
    }
}

fn push_decimal(s: &mut String, n: usize)
    ensures
        final(s)@ == old(s)@ + decimal(n as nat),
    decreases n,
{
    if n < 10 {
        push_char(s, digit(n));
    } else {
        push_decimal(s, n / 10);
        push_char(s, digit(n % 10));
    }
}

/// `n` zero-padded to at least `width` digits (`{:0width$}`).
pub open spec fn padded(n: nat, width: nat) -> Seq<char> {
    if decimal(n).len() < width {
        Seq::new((width - decimal(n).len()) as nat, |i: int| '0') + decimal(n)
    } else {
        decimal(n)
    }
}

/// A menu line: the number zero-padded to `width`, `. `, the item without
/// its line breaks, and a line break.
pub open spec fn menu_line_text(width: nat, number: nat, item: Seq<char>) -> Seq<char> {
    padded(number, width) + ". "@ + without_newlines(item) + seq!['\n']
}

proof fn lemma_decimal_len(n: nat)
    ensures
        1 <= decimal(n).len() <= n + 1,
    decreases n,
{
    if n >= 10 {
        lemma_decimal_len(n / 10);
    }
}

/// The menu line of an item.
pub fn menu_line(width: usize, number: usize, item: &str) -> (r: String)
    ensures
        r@ == menu_line_text(width as nat, number as nat, item@),
{
    let mut digits = String::new();
    push_decimal(&mut digits, number);
    let len = digits.as_str().unicode_len();
    let mut s = String::new();
    let mut k: usize = len;
    proof {
        lemma_decimal_len(number as nat);
    }
    while k < width
        invariant
            len == decimal(number as nat).len(),
            len <= k <= width || (k == len && width <= len),
            s@ == Seq::new((k - len) as nat, |i: int| '0'),
        decreases width - k,
    {
        push_char(&mut s, '0');
        assert(s@ =~= Seq::new((k + 1 - len) as nat, |i: int| '0'));
        k = k + 1;
    }
    s.append(digits.as_str());
    proof {
        if len >= width {
            assert(s@ =~= decimal(number as nat));
        }
    }
    s.append(". ");
    let chars = chars_of(item);
    let kept = without_newline_chars(&chars);
    let mut i: usize = 0;
    let ghost head = s@;
    while i < kept.len()
        invariant
            i <= kept.len(),
            s@ == head + kept@.take(i as int),
        decreases kept.len() - i,
    {
        push_char(&mut s, kept[i]);
        assert(s@ =~= head + kept@.take(i + 1));
        i = i + 1;
    }
    assert(kept@.take(kept.len() as int) =~= kept@);
    push_char(&mut s, '\n');
    s
}

} // verus!
