//! Properties that relate several operations of the client.
use vstd::prelude::*;
use crate::choice::{
    all_digits, choice_of, decimal, decimal_value, digit_char, digits_part, is_digit, padded,
    parse_usize, without_newlines,
};
use crate::command::{
    command_steps, Action, is_exit_line, is_logout_line, opt_text, AuthType, FormatType, S3Type, S3rsCmd, Step, TagAction,
    UrlStyle,
};
use crate::text::{key_values, starts_with};
use crate::listing::{scan, tag_texts, XmlStep};
use crate::handler::{
    addressed, url_query, s3_type_report, auth_type_mode, format_mode, s3_type_modes, url_style_mode, AuthType as Auth, Format,
    UrlStyle as Style,
};
use crate::handler::{la_after, la_after_all, la_pending, la_start, LaState};
use crate::handler::{
    bucket_of, has_s3_scheme, la_lines_of, la_request_is, ls_address, ls_query, ls_v2_path, Handler, HandlerError,
    Method, Request,
};
use crate::detail::{detail_listing, detail_row, ObjectDetail};
use crate::patterns::{is_name_char, is_path_char, law_s3_address_round_trip, s3_scheme};
use crate::text::{ends_with, split_char};

verus! {

/// Each S3 flavour that `s3_type` offers switches to its modes, whatever
/// the modes were: `aws` and `aws4` to v4 signing, XML and host-style
/// addresses, `aws2` to v2 signing, XML and host-style addresses, `ceph` to
/// v4 signing, JSON and path-style addresses.
pub proof fn law_s3_type_words(t: S3Type, modes: (Auth, Format, Style))
    ensures
        s3_type_modes(t.text()@, modes) == match t {
            S3Type::AWS | S3Type::AWS4 => (Auth::AWS4, Format::XML, Style::HOST),
            S3Type::AWS2 => (Auth::AWS2, Format::XML, Style::HOST),
            S3Type::CEPH => (Auth::AWS4, Format::JSON, Style::PATH),
        },
        s3_type_report(t.text()@) == match t {
            S3Type::AWS | S3Type::AWS4 => "using aws verion 4 protocol, xml format, and host style url"@,
            S3Type::AWS2 => "using aws version 2 protocol, xml format, and host style url"@,
            S3Type::CEPH => "using aws verion 4 protocol, json format, and path style url"@,
        },
{
    reveal_strlit("aws");
    reveal_strlit("aws2");
    reveal_strlit("aws4");
    reveal_strlit("ceph");
    match t {
        S3Type::AWS => {
            assert("aws"@.subrange(0, 3) =~= "aws"@);
            assert(!ends_with("aws"@, "aws2"@));
            assert(!ends_with("aws"@, "aws4"@));
        },
        S3Type::AWS4 => {
            assert("aws4"@.subrange(0, 4) =~= "aws4"@);
            assert(!ends_with("aws4"@, "aws2"@)) by {
                assert("aws4"@.subrange(0, 4)[3] != "aws2"@[3]);
            }
        },
        S3Type::AWS2 => {
            assert("aws2"@.subrange(0, 4) =~= "aws2"@);
        },
        S3Type::CEPH => {
            assert("ceph"@.subrange(0, 4) =~= "ceph"@);
            assert(!ends_with("ceph"@, "aws2"@)) by {
                assert("ceph"@.subrange(0, 4)[0] != "aws2"@[0]);
            }
            assert(!ends_with("ceph"@, "aws4"@)) by {
                assert("ceph"@.subrange(0, 4)[0] != "aws4"@[0]);
            }
            assert(!ends_with("ceph"@, "aws"@)) by {
                assert("ceph"@.subrange(1, 4)[0] != "aws"@[0]);
            }
        },
    }
}

/// Each word of `auth_type` switches to the signature version it names.
pub proof fn law_auth_type_words(t: AuthType, a: Auth)
    ensures
        auth_type_mode(t.text()@, a) == match t {
            AuthType::AWS2 => Auth::AWS2,
            AuthType::AWS4 => Auth::AWS4,
        },
{
    reveal_strlit("aws2");
    reveal_strlit("aws4");
    match t {
        AuthType::AWS2 => {
            assert("aws2"@.subrange(0, 4) =~= "aws2"@);
        },
        AuthType::AWS4 => {
            assert("aws4"@.subrange(0, 4) =~= "aws4"@);
            assert(!ends_with("aws4"@, "aws2"@)) by {
                assert("aws4"@.subrange(0, 4)[3] != "aws2"@[3]);
            }
        },
    }
}

/// Each format word switches to the format it names.
pub proof fn law_format_words(t: FormatType, f: Format)
    ensures
        format_mode(t.text()@, f) == match t {
            FormatType::XML => Format::XML,
            FormatType::JSON => Format::JSON,
        },
{
    reveal_strlit("xml");
    reveal_strlit("json");
    match t {
        FormatType::XML => {
            assert("xml"@.subrange(0, 3) =~= "xml"@);
        },
        FormatType::JSON => {
            assert("json"@.subrange(0, 4) =~= "json"@);
            assert(!ends_with("json"@, "xml"@)) by {
                assert("json"@.subrange(1, 4)[0] != "xml"@[0]);
            }
        },
    }
}

/// Each URL-style word switches to the style it names.
pub proof fn law_url_style_words(t: UrlStyle, u: Style)
    ensures
        url_style_mode(t.text()@, u) == match t {
            UrlStyle::Path => Style::PATH,
            UrlStyle::Host => Style::HOST,
        },
{
    reveal_strlit("path");
    reveal_strlit("host");
    match t {
        UrlStyle::Path => {
            assert("path"@.subrange(0, 4) =~= "path"@);
        },
        UrlStyle::Host => {
            assert("host"@.subrange(0, 4) =~= "host"@);
            assert(!ends_with("host"@, "path"@)) by {
                assert("host"@.subrange(0, 4)[0] != "path"@[0]);
            }
        },
    }
}

/// A mode command given twice leaves the handler as giving it once.
pub proof fn law_mode_commands_idempotent(cmd: Seq<char>, modes: (Auth, Format, Style))
    ensures
        s3_type_modes(cmd, s3_type_modes(cmd, modes)) == s3_type_modes(cmd, modes),
        auth_type_mode(cmd, auth_type_mode(cmd, modes.0)) == auth_type_mode(cmd, modes.0),
        format_mode(cmd, format_mode(cmd, modes.1)) == format_mode(cmd, modes.1),
        url_style_mode(cmd, url_style_mode(cmd, modes.2)) == url_style_mode(cmd, modes.2),
{
}

/// `del` and `rm` stand for the same steps.
pub proof fn law_del_rm_alike(s3_type: Seq<char>, uri: String, marker: Option<String>)
    ensures
        command_steps(s3_type, Some(S3rsCmd::Del { uri, marker })) == command_steps(
            s3_type,
            Some(S3rsCmd::Rm { uri, marker }),
        ),
{
}

/// The pieces between `&` of a query string joined by `&` give it back: the
/// query pairs of `url_command` come from a split that loses nothing.
pub open spec fn join_char(pieces: Seq<Seq<char>>, c: char) -> Seq<char>
    decreases pieces.len(),
{
    if pieces.len() <= 1 {
        if pieces.len() == 1 {
            pieces[0]
        } else {
            Seq::empty()
        }
    } else {
        join_char(pieces.drop_last(), c) + seq![c] + pieces.last()
    }
}

/// Splitting at `c` and joining with `c` gives the text back.
pub proof fn law_split_join(s: Seq<char>, c: char)
    ensures
        join_char(split_char(s, c), c) == s,
    decreases s.len(),
{
    if s.len() > 0 {
        let p = split_char(s.drop_last(), c);
        law_split_join(s.drop_last(), c);
        crate::text::lemma_split_char_len(s.drop_last(), c);
        if s.last() == c {
            let q = p.push(Seq::<char>::empty());
            assert(q.drop_last() =~= p);
            assert(join_char(q, c) =~= s.drop_last() + seq![c] + Seq::<char>::empty());
            assert(s =~= s.drop_last() + seq![c]);
        } else {
            let q = p.update(p.len() - 1, p.last().push(s.last()));
            if p.len() == 1 {
                assert(q[0] =~= s.drop_last().push(s.last()));
                assert(s =~= s.drop_last().push(s.last()));
            } else {
                assert(q.drop_last() =~= p.drop_last());
                assert(join_char(p, c) == join_char(p.drop_last(), c) + seq![c] + p.last());
                assert(join_char(q, c) =~= join_char(p.drop_last(), c) + seq![c] + p.last().push(s.last()));
                assert(s =~= s.drop_last().push(s.last()));
            }
        }
    } else {
        assert(join_char(seq![Seq::<char>::empty()], c) =~= s);
    }
}

proof fn lemma_digit_char(d: nat)
    requires
        d < 10,
    ensures
        is_digit(digit_char(d)),
        digit_char(d) as int - '0' as int == d,
        digit_char(d) != '+',
        digit_char(d) != '\n',
{
}

proof fn lemma_decimal(n: nat)
    ensures
        all_digits(decimal(n)),
        decimal_value(decimal(n)) == n,
        decimal(n).len() >= 1,
        forall|i: int| 0 <= i < decimal(n).len() ==> decimal(n)[i] != '+' && decimal(n)[i] != '\n',
    decreases n,
{
    if n < 10 {
        lemma_digit_char(n);
        assert(decimal(n).drop_last() =~= Seq::<char>::empty());
        assert(decimal(n).last() == digit_char(n));
        assert(decimal_value(Seq::<char>::empty()) == 0);
        assert(decimal_value(decimal(n)) == 10 * decimal_value(decimal(n).drop_last()) + (digit_char(n) as int - '0' as int));
    } else {
        lemma_decimal(n / 10);
        lemma_digit_char(n % 10);
        assert(decimal(n).drop_last() =~= decimal(n / 10));
        assert(decimal(n).last() == digit_char(n % 10));
        assert(decimal_value(decimal(n)) == 10 * decimal_value(decimal(n / 10)) + (digit_char(n % 10) as int - '0' as int));
        assert(10 * (n / 10) + n % 10 == n);
    }
}

proof fn lemma_zeros_value(k: nat, t: Seq<char>)
    ensures
        decimal_value(Seq::new(k, |i: int| '0') + t) == decimal_value(t) + decimal_value(Seq::new(k, |i: int| '0')) * pow10(t.len()),
        decimal_value(Seq::new(k, |i: int| '0')) == 0,
    decreases t.len() + k,
{
    let z = Seq::new(k, |i: int| '0');
    if t.len() > 0 {
        lemma_zeros_value(k, t.drop_last());
        assert((z + t).drop_last() =~= z + t.drop_last());
    } else {
        assert(z + t =~= z);
        if k > 0 {
            lemma_zeros_value((k - 1) as nat, t);
            assert(z.drop_last() =~= Seq::new((k - 1) as nat, |i: int| '0'));
        }
    }
}

spec fn pow10(n: nat) -> int
    decreases n,
{
    if n == 0 {
        1
    } else {
        10 * pow10((n - 1) as nat)
    }
}

proof fn lemma_no_newlines(s: Seq<char>)
    requires
        forall|i: int| 0 <= i < s.len() ==> s[i] != '\n',
    ensures
        without_newlines(s) == s,
    decreases s.len(),
{
    if s.len() > 0 {
        lemma_no_newlines(s.drop_last());
        assert(s =~= s.drop_last().push(s.last()));
    }
}

/// Answering a menu with the number of one of its lines, zero-padded as the
/// menu writes it, chooses that line.
pub proof fn law_menu_number_chosen(n: nat, width: nat, min: int, max: int)
    requires
        min <= n <= max,
        max <= usize::MAX,
    ensures
        choice_of(padded(n, width), min, max) == Some(n as int),
{
    lemma_decimal(n);
    let d = decimal(n);
    let p = padded(n, width);
    if d.len() < width {
        let k = (width - d.len()) as nat;
        let z = Seq::new(k, |i: int| '0');
        lemma_zeros_value(k, d);
        assert(p == z + d);
        assert forall|i: int| 0 <= i < p.len() implies p[i] != '\n' && is_digit(p[i]) by {
            if i >= k {
                assert(p[i] == d[i - k]);
            }
        }
        assert(p[0] == '0');
    } else {
        assert(p == d);
    }
    lemma_no_newlines(p);
    assert(digits_part(p) == p);
    assert(all_digits(p));
    assert(parse_usize(p) == Some(n as int));
}

/// A chosen number always lies in the range asked for.
pub proof fn law_choice_in_range(line: Seq<char>, min: int, max: int)
    ensures
        choice_of(line, min, max) matches Some(x) ==> min <= x <= max,
{
}


/// Path style and host style name the same object: the path-style path is
/// `/`, the host-style virtual host (the bucket) and the host-style path.
pub proof fn law_styles_address_same_object(bucket: Seq<char>, object: Seq<char>)
    ensures
        addressed(Style::HOST, bucket, object).0 == Some(bucket),
        addressed(Style::PATH, bucket, object).0 is None,
        addressed(Style::PATH, bucket, object).1 == seq!['/'] + addressed(Style::HOST, bucket, object).0->Some_0
            + addressed(Style::HOST, bucket, object).1,
{
}


/// The path of a raw request, `?`, and the query pieces joined by `&` give
/// back the address that `url_command` read them from.
pub proof fn law_url_query_parts(url: Seq<char>)
    requires
        url.contains('?'),
    ensures
        ({
            let i = choose|i: int| 0 <= i < url.len() && url[i] == '?' && forall|j: int| 0 <= j < i ==> url[j] != '?';
            &&& url_query(url).0 == url.subrange(0, i)
            &&& url == url_query(url).0 + seq!['?'] + join_char(split_char(url.subrange(i + 1, url.len() as int), '&'), '&')
        }),
{
    let i = choose|i: int| 0 <= i < url.len() && url[i] == '?' && forall|j: int| 0 <= j < i ==> url[j] != '?';
    let k = choose|k: int| 0 <= k < url.len() && url[k] == '?';
    lemma_first_exists(url, k);
    law_split_join(url.subrange(i + 1, url.len() as int), '&');
    assert(url =~= url.subrange(0, i) + seq!['?'] + url.subrange(i + 1, url.len() as int));
}

proof fn lemma_first_exists(s: Seq<char>, k: int)
    requires
        0 <= k < s.len(),
        s[k] == '?',
    ensures
        exists|i: int| 0 <= i < s.len() && s[i] == '?' && forall|j: int| 0 <= j < i ==> s[j] != '?',
    decreases k,
{
    if exists|j: int| 0 <= j < k && s[j] == '?' {
        let j = choose|j: int| 0 <= j < k && s[j] == '?';
        lemma_first_exists(s, j);
    } else {
        assert(forall|j: int| 0 <= j < k ==> s[j] != '?');
    }
}

/// `la` asks for the buckets' listings one at a time, in the order of the
/// bucket list: after `k` listings have come back, the next request is for
/// bucket `k`, and after the last bucket no request follows.
pub proof fn law_la_in_order(buckets: Seq<Seq<char>>, k: nat)
    requires
        k <= buckets.len(),
    ensures
        la_after_all(la_start(buckets), Seq::new(k, |i: int| true)) == (LaState { buckets, done: k, failed: false }),
        la_pending(la_after_all(la_start(buckets), Seq::new(k, |i: int| true))) == if k < buckets.len() {
            Some(buckets[k as int])
        } else {
            None
        },
    decreases k,
{
    if k > 0 {
        let oks = Seq::new(k, |i: int| true);
        assert(oks.drop_last() =~= Seq::new((k - 1) as nat, |i: int| true));
        law_la_in_order(buckets, (k - 1) as nat);
    }
}

/// A run of `la` with no pending request stays as it is, whatever answers follow.
proof fn lemma_la_idle(s: LaState, rest: Seq<bool>)
    requires
        la_pending(s) is None,
    ensures
        la_after_all(s, rest) == s,
    decreases rest.len(),
{
    if rest.len() > 0 {
        lemma_la_idle(s, rest.drop_last());
    }
}

/// Once a listing request of `la` has failed, `la` sends no further request,
/// whatever answers follow.
pub proof fn law_la_stops_at_failure(s: LaState, rest: Seq<bool>)
    ensures
        la_pending(la_after(s, false)) is None,
        la_pending(la_after_all(la_after(s, false), rest)) is None,
{
    lemma_la_idle(la_after(s, false), rest);
}

/// Each listing command plans exactly its own listing call, with the
/// address as given: `la` the listing of every object, `ls [uri]` the
/// listing of `uri` (of the buckets for a bare `ls`), `ll [uri]` the detailed
/// listing of `uri`, or of every object for a bare `ll`.
pub proof fn law_listing_commands(t: Seq<char>, uri: Option<String>, u: String)
    ensures
        command_steps(t, Some(S3rsCmd::ListAll)) == seq![Step::ListAll],
        command_steps(t, Some(S3rsCmd::List { uri })) == seq![Step::List(uri.deep_view())],
        command_steps(t, Some(S3rsCmd::List { uri: None })) == seq![Step::List(None)],
        command_steps(t, Some(S3rsCmd::Detail { uri: Some(u) })) == seq![Step::DetailOf(u@)],
        command_steps(t, Some(S3rsCmd::Detail { uri: None })) == seq![Step::DetailAll],
{
}

/// `mb b` plans exactly the creation of bucket `b` and `rb b` exactly its
/// removal; a raw `/path?query` line plans exactly that request, whose
/// failure is reported.
pub proof fn law_bucket_and_query_commands(t: Seq<char>, bucket: String, url: String)
    ensures
        command_steps(t, Some(S3rsCmd::CreateBucket { bucket })) == seq![Step::CreateBucket(bucket@)],
        command_steps(t, Some(S3rsCmd::DeleteBucket { bucket })) == seq![Step::DeleteBucket(bucket@)],
        command_steps(t, Some(S3rsCmd::Query { url })) == seq![Step::UrlCommand(url@, true)],
{
}

/// The object commands pass their address and file on unchanged: `put file
/// uri` uploads `file` to `uri`, `get uri [file]` downloads `uri` into
/// `file`, `cat uri` shows `uri`; `del`/`rm` delete `uri` with the
/// `header:value` words of the marker, in order.
pub proof fn law_object_commands(
    t: Seq<char>,
    uri: String,
    file: String,
    target: Option<String>,
    marker: Option<String>,
)
    ensures
        command_steps(t, Some(S3rsCmd::Put { file, uri })) == seq![Step::Put(file@, uri@)],
        command_steps(t, Some(S3rsCmd::Get { uri, file: target })) == seq![Step::Get(uri@, target.deep_view())],
        command_steps(t, Some(S3rsCmd::Cat { uri })) == seq![Step::Cat(uri@)],
        command_steps(t, Some(S3rsCmd::Del { uri, marker })) == seq![
            Step::DeleteWithHeaders(uri@, key_values(opt_text(marker), ':')),
        ],
        command_steps(t, Some(S3rsCmd::Rm { uri, marker })) == seq![
            Step::DeleteWithHeaders(uri@, key_values(opt_text(marker), ':')),
        ],
{
}

/// `usage bucket [options]` plans exactly the usage call on `bucket`, with
/// the `key=value` words of the options, in order.
pub proof fn law_usage_command(t: Seq<char>, bucket: String, options: Option<String>)
    ensures
        command_steps(t, Some(S3rsCmd::Usage { bucket, options })) == seq![
            Step::Usage(bucket@, key_values(opt_text(options), '=')),
        ],
{
}

/// `tag list|add|del uri` plans exactly the tag call of its action on `uri`;
/// `add` carries the `key=value` words, in order.
pub proof fn law_tag_commands(t: Seq<char>, uri: String, tags: Option<String>)
    ensures
        command_steps(t, Some(S3rsCmd::Tag { action: TagAction::List, uri, tags })) == seq![Step::ListTag(uri@)],
        command_steps(t, Some(S3rsCmd::Tag { action: TagAction::Add, uri, tags })) == seq![
            Step::AddTag(uri@, key_values(opt_text(tags), '=')),
        ],
        command_steps(t, Some(S3rsCmd::Tag { action: TagAction::Delete, uri, tags })) == seq![Step::DeleteTag(uri@)],
{
}

/// The setting commands plan exactly the switch they name, with its word:
/// `s3_type`, `auth_type`, `format`, `url-style` and `log`.
pub proof fn law_setting_commands(t: Seq<char>, s: S3Type, a: AuthType, f: FormatType, u: UrlStyle, level: String)
    ensures
        command_steps(t, Some(S3rsCmd::S3Type(s))) == seq![
            Step::ChangeS3Type(
                match s {
                    S3Type::AWS => "aws"@,
                    S3Type::CEPH => "ceph"@,
                    S3Type::AWS4 => "aws4"@,
                    S3Type::AWS2 => "aws2"@,
                },
            ),
        ],
        command_steps(t, Some(S3rsCmd::AuthType(a))) == seq![
            Step::ChangeAuthType(
                match a {
                    AuthType::AWS2 => "aws2"@,
                    AuthType::AWS4 => "aws4"@,
                },
            ),
        ],
        command_steps(t, Some(S3rsCmd::Format(f))) == seq![
            Step::ChangeFormatType(
                match f {
                    FormatType::XML => "xml"@,
                    FormatType::JSON => "json"@,
                },
            ),
        ],
        command_steps(t, Some(S3rsCmd::UrlStyle(u))) == seq![
            Step::ChangeUrlStyle(
                match u {
                    UrlStyle::Path => "path"@,
                    UrlStyle::Host => "host"@,
                },
            ),
        ],
        command_steps(t, Some(S3rsCmd::Log(level))) == seq![Step::ChangeLogType(level@)],
{
}

/// No command, `logout` and `quit` plan nothing: the interactive loop
/// handles them.
pub proof fn law_session_commands(t: Seq<char>)
    ensures
        command_steps(t, None) == Seq::<Step>::empty(),
        command_steps(t, Some(S3rsCmd::Logout)) == Seq::<Step>::empty(),
        command_steps(t, Some(S3rsCmd::Quit)) == Seq::<Step>::empty(),
{
}

/// A typed line asks to log out exactly when it starts with `logout`, and
/// to leave exactly when, not starting with `logout`, it starts with `exit`
/// or `quit`: a line such as `log debug` is neither.
pub proof fn law_prompt_lines(line: Seq<char>)
    ensures
        is_logout_line(line) <==> starts_with(line, "logout"@),
        is_exit_line(line) <==> (!starts_with(line, "logout"@) && (starts_with(line, "exit"@) || starts_with(
            line,
            "quit"@,
        ))),
        !(is_logout_line(line) && is_exit_line(line)),
{
}

/// Whether an XML event leaves the reading of `tag` elements as it is: the
/// opening or closing tag of an element of another name, or an event that
/// is neither tag nor text nor failure.
pub open spec fn passes_over(x: XmlStep, tag: Seq<u8>) -> bool {
    match x {
        XmlStep::Start(n) => n != tag,
        XmlStep::End(n) => n != tag,
        XmlStep::Other => true,
        _ => false,
    }
}

proof fn lemma_scan_insert(evs: Seq<XmlStep>, k: int, x: XmlStep, tag: Seq<u8>)
    requires
        0 <= k <= evs.len(),
        passes_over(x, tag),
    ensures
        scan(evs.insert(k, x), tag) == scan(evs, tag),
    decreases evs.len(),
{
    let e = evs.insert(k, x);
    if k == evs.len() {
        assert(e.drop_last() =~= evs);
    } else {
        assert(e.drop_last() =~= evs.drop_last().insert(k, x));
        assert(e.last() == evs.last());
        lemma_scan_insert(evs.drop_last(), k, x, tag);
    }
}

/// Tags of elements of other names do not change what is read for `tag`,
/// wherever they stand: only an element whose name is exactly `tag`, byte
/// for byte, is read (so `<DisplayName>` is never read as a `<Name>`).
pub proof fn law_other_tags_ignored(evs: Seq<XmlStep>, k: int, n: Seq<u8>, tag: Seq<u8>)
    requires
        0 <= k <= evs.len(),
        n != tag,
    ensures
        tag_texts(evs.insert(k, XmlStep::Start(n)), tag) == tag_texts(evs, tag),
        tag_texts(evs.insert(k, XmlStep::End(n)), tag) == tag_texts(evs, tag),
        tag_texts(evs.insert(k, XmlStep::Other), tag) == tag_texts(evs, tag),
{
    lemma_scan_insert(evs, k, XmlStep::Start(n), tag);
    lemma_scan_insert(evs, k, XmlStep::End(n), tag);
    lemma_scan_insert(evs, k, XmlStep::Other, tag);
}

/// The events of a document made of simple elements `<n>t</n>`, one after
/// the other.
pub open spec fn simple_elements(es: Seq<(Seq<u8>, Seq<char>)>) -> Seq<XmlStep>
    decreases es.len(),
{
    if es.len() == 0 {
        Seq::empty()
    } else {
        simple_elements(es.drop_last()) + seq![
            XmlStep::Start(es.last().0),
            XmlStep::Text(Some(es.last().1)),
            XmlStep::End(es.last().0),
        ]
    }
}

proof fn lemma_simple_elements_scan(es: Seq<(Seq<u8>, Seq<char>)>, tag: Seq<u8>)
    ensures
        scan(simple_elements(es), tag) == (
            false,
            Some(es.filter_map(|e: (Seq<u8>, Seq<char>)| if e.0 == tag { Some(e.1) } else { None })),
        ),
    decreases es.len(),
{
    if es.len() > 0 {
        lemma_simple_elements_scan(es.drop_last(), tag);
        let s = simple_elements(es.drop_last());
        let (n, t) = es.last();
        let ev = simple_elements(es);
        assert(ev == s + seq![XmlStep::Start(n), XmlStep::Text(Some(t)), XmlStep::End(n)]);
        assert(ev.drop_last() =~= s + seq![XmlStep::Start(n), XmlStep::Text(Some(t))]);
        assert(ev.drop_last().drop_last() =~= s + seq![XmlStep::Start(n)]);
        assert(ev.drop_last().drop_last().drop_last() =~= s);
        let f = |e: (Seq<u8>, Seq<char>)| if e.0 == tag { Some(e.1) } else { None };
        let prev = es.drop_last().filter_map(f);
        assert(scan(s, tag) == (false, Some(prev)));
        assert(scan(ev.drop_last().drop_last(), tag) == (n == tag, Some(prev)));
        if n == tag {
            assert(scan(ev.drop_last(), tag) == (true, Some(prev.push(t))));
            assert(scan(ev, tag) == (false, Some(prev.push(t))));
            assert(es.filter_map(f) == prev + seq![t]);
            assert(prev.push(t) =~= prev + seq![t]);
        } else {
            assert(scan(ev.drop_last(), tag) == (false, Some(prev)));
            assert(scan(ev, tag) == (false, Some(prev)));
            assert(es.filter_map(f) == prev);
        }
    } else {
        assert(simple_elements(es) =~= Seq::<XmlStep>::empty());
    }
}

/// In a document of simple elements `<n>t</n>`, the texts read for `tag`
/// are the texts of exactly the elements named `tag`, in document order.
pub proof fn law_simple_elements_texts(es: Seq<(Seq<u8>, Seq<char>)>, tag: Seq<u8>)
    ensures
        tag_texts(simple_elements(es), tag) == Some(
            es.filter_map(|e: (Seq<u8>, Seq<char>)| if e.0 == tag { Some(e.1) } else { None }),
        ),
{
    lemma_simple_elements_scan(es, tag);
}

/// What each operation makes of an address `s3://bucket/object` (a
/// non-empty bucket of name characters, an object path that is empty or
/// starts with `/`): `get`, `cat`, `del` and `tag` act on that bucket and
/// object (refused without an object), path style sending `/bucket/object`
/// and host style `object` to the bucket's host; `mb` and `rb` act on the
/// bucket; `ls` lists the bucket (`/bucket`, or `/` on the bucket's host)
/// limited to the object path without its leading `/` as a prefix.
pub proof fn law_address_targets(bucket: Seq<char>, object: Seq<char>, e: HandlerError)
    requires
        bucket.len() > 0,
        forall|k: int| 0 <= k < bucket.len() ==> is_name_char(bucket[k]),
        forall|k: int| 0 <= k < object.len() ==> is_path_char(object[k]),
        object.len() == 0 || object[0] == '/',
    ensures
        has_s3_scheme(s3_scheme() + bucket + object),
        object.len() > 0 ==> Handler::object_of(s3_scheme() + bucket + object, e) == Ok::<_, HandlerError>((bucket, object)),
        object.len() == 0 ==> Handler::object_of(s3_scheme() + bucket + object, e) == Err::<(Seq<char>, Seq<char>), _>(
            HandlerError::MissingObject,
        ),
        addressed(Style::PATH, bucket, object) == (None::<Seq<char>>, seq!['/'] + bucket + object),
        addressed(Style::HOST, bucket, object) == (Some(bucket), object),
        bucket_of(s3_scheme() + bucket + object) == Ok::<_, HandlerError>(bucket),
        ls_address(Style::PATH, s3_scheme() + bucket + object) == (None::<Seq<char>>, seq!['/'] + bucket),
        ls_address(Style::HOST, s3_scheme() + bucket + object) == (Some(bucket), seq!['/']),
        ls_v2_path(s3_scheme() + bucket + object) == seq!['/'] + bucket,
        ls_query(s3_scheme() + bucket + object) == if object.len() > 1 {
            seq![("prefix"@, object.subrange(1, object.len() as int))]
        } else {
            Seq::<(Seq<char>, Seq<char>)>::empty()
        },
{
    let a = s3_scheme() + bucket + object;
    law_s3_address_round_trip(bucket, object);
    reveal_strlit("s3://");
    reveal_strlit("/");
    assert(a.subrange(0, 5) =~= "s3://"@);
    assert(a.len() > 0);
}

/// A word that is not written as an S3 address is taken as a bucket name:
/// `mb`/`rb` act on that bucket, and `ls` lists `/word` with no prefix. An
/// empty `mb`/`rb` argument is refused.
pub proof fn law_bare_bucket_words(word: Seq<char>)
    requires
        !starts_with(word, "s3://"@),
        !starts_with(word, "S3://"@),
    ensures
        word.len() > 0 ==> bucket_of(word) == Ok::<_, HandlerError>(word),
        word.len() == 0 ==> bucket_of(word) == Err::<Seq<char>, _>(HandlerError::MissingBucket),
        ls_address(Style::PATH, word) == (None::<Seq<char>>, seq!['/'] + word),
        ls_address(Style::HOST, word) == (None::<Seq<char>>, seq!['/'] + word),
        ls_v2_path(word) == seq!['/'] + word,
        ls_query(word) == Seq::<(Seq<char>, Seq<char>)>::empty(),
{
}

/// The listing request of `la` for a bucket is `GET /bucket` with no virtual
/// host, query or body; it prints one line `S3://bucket/key` per key, in the
/// order of the keys.
pub proof fn law_la_bucket_listing(r: Request, bucket: Seq<char>, keys: Seq<Seq<char>>)
    ensures
        la_request_is(r, bucket) <==> r.is(Method::Get, None, seq!['/'] + bucket, Seq::empty(), Seq::empty()),
        la_lines_of(bucket, keys).len() == keys.len(),
        forall|i: int| 0 <= i < keys.len() ==> #[trigger] la_lines_of(bucket, keys)[i] == "S3://"@ + bucket + "/"@ + keys[i],
{
}

/// The steps of `info` for a bucket: the location, ACL and versioning
/// requests, in that order, each under its heading, and for a Ceph server
/// also the version and the pending uploads; failures are not reported.
pub open spec fn info_plan(ceph: bool, b: Seq<char>) -> Seq<Step> {
    seq![
        Step::Heading("location:"@, false),
        Step::UrlCommand(seq!['/'] + b + "?location"@, false),
        Step::Heading("acl:"@, true),
        Step::UrlCommand(seq!['/'] + b + "?acl"@, false),
        Step::Heading("versioning:"@, true),
        Step::UrlCommand(seq!['/'] + b + "?versioning"@, false),
    ] + if ceph {
        seq![
            Step::Heading("version:"@, true),
            Step::UrlCommand(seq!['/'] + b + "?version"@, false),
            Step::Heading("uploads:"@, true),
            Step::UrlCommand(seq!['/'] + b + "?uploads"@, false),
        ]
    } else {
        Seq::empty()
    }
}

proof fn lemma_query_path(b: Seq<char>, what: Seq<char>)
    ensures
        seq!['/'] + b + seq!['?'] + what == seq!['/'] + b + (seq!['?'] + what),
{
    assert(seq!['/'] + b + seq!['?'] + what =~= seq!['/'] + b + (seq!['?'] + what));
}

proof fn lemma_query_paths(b: Seq<char>)
    ensures
        seq!['/'] + b + seq!['?'] + "location"@ == seq!['/'] + b + (seq!['?'] + "location"@),
        seq!['/'] + b + seq!['?'] + "acl"@ == seq!['/'] + b + (seq!['?'] + "acl"@),
        seq!['/'] + b + seq!['?'] + "versioning"@ == seq!['/'] + b + (seq!['?'] + "versioning"@),
        seq!['/'] + b + seq!['?'] + "version"@ == seq!['/'] + b + (seq!['?'] + "version"@),
        seq!['/'] + b + seq!['?'] + "uploads"@ == seq!['/'] + b + (seq!['?'] + "uploads"@),
{
    lemma_query_path(b, "location"@);
    lemma_query_path(b, "acl"@);
    lemma_query_path(b, "versioning"@);
    lemma_query_path(b, "version"@);
    lemma_query_path(b, "uploads"@);
}

/// `info` on a bare bucket name, or on an address `s3://bucket/object`,
/// plans the bucket's location, ACL and versioning requests (and for Ceph
/// its version and uploads), in that order.
pub proof fn law_info_command(t: Seq<char>, word: String, address: String, bucket: Seq<char>, object: Seq<char>)
    requires
        !starts_with(word@, "s3://"@),
        !starts_with(word@, "S3://"@),
        address@ == s3_scheme() + bucket + object,
        bucket.len() > 0,
        forall|k: int| 0 <= k < bucket.len() ==> is_name_char(bucket[k]),
        forall|k: int| 0 <= k < object.len() ==> is_path_char(object[k]),
        object.len() == 0 || object[0] == '/',
    ensures
        command_steps(t, Some(S3rsCmd::Info { bucket: word })) == info_plan(t == "ceph"@, word@),
        command_steps(t, Some(S3rsCmd::Info { bucket: address })) == info_plan(t == "ceph"@, bucket),
{
    law_address_targets(bucket, object, HandlerError::MissingTarget);
    reveal_strlit("?location");
    reveal_strlit("location");
    reveal_strlit("?acl");
    reveal_strlit("acl");
    reveal_strlit("?versioning");
    reveal_strlit("versioning");
    reveal_strlit("?version");
    reveal_strlit("version");
    reveal_strlit("?uploads");
    reveal_strlit("uploads");
    assert("?location"@ =~= seq!['?'] + "location"@);
    assert("?acl"@ =~= seq!['?'] + "acl"@);
    assert("?versioning"@ =~= seq!['?'] + "versioning"@);
    assert("?version"@ =~= seq!['?'] + "version"@);
    assert("?uploads"@ =~= seq!['?'] + "uploads"@);
    lemma_query_paths(word@);
    lemma_query_paths(bucket);
    assert(command_steps(t, Some(S3rsCmd::Info { bucket: word })) =~= info_plan(t == "ceph"@, word@));
    assert(command_steps(t, Some(S3rsCmd::Info { bucket: address })) =~= info_plan(t == "ceph"@, bucket));
}

/// A detailed listing prints the heading first, then one row per object,
/// in the order of the listing.
pub proof fn law_detail_listing(entries: Seq<ObjectDetail>)
    ensures
        detail_listing(entries).len() == entries.len() + 1,
        detail_listing(entries)[0] == "STORAGE CLASS\tMODIFIED TIME\t\t\tETAG\t\t\t\t\tSIZE\tKEY"@,
        forall|i: int| 0 <= i < entries.len() ==> #[trigger] detail_listing(entries)[i + 1] == detail_row(entries[i]),
{
}

/// Each action stands for the step of the same name, with its arguments
/// as they are: the plan of a command is carried out call for call.
pub proof fn law_actions_are_their_steps(
    s: String,
    u: Option<String>,
    f: Option<String>,
    pairs: Vec<(String, String)>,
    gap: bool,
    word: &'static str,
)
    ensures
        Action::ListAll@ == Step::ListAll,
        Action::List(u)@ == Step::List(u.deep_view()),
        Action::DetailAll@ == Step::DetailAll,
        Action::DetailOf(s)@ == Step::DetailOf(s@),
        (Action::Put { file: s, uri: s })@ == Step::Put(s@, s@),
        (Action::Get { uri: s, file: f })@ == Step::Get(s@, f.deep_view()),
        Action::Cat(s)@ == Step::Cat(s@),
        (Action::DeleteWithHeaders { uri: s, headers: pairs })@ == Step::DeleteWithHeaders(s@, pairs.deep_view()),
        Action::ListTag(s)@ == Step::ListTag(s@),
        (Action::AddTag { uri: s, tags: pairs })@ == Step::AddTag(s@, pairs.deep_view()),
        Action::DeleteTag(s)@ == Step::DeleteTag(s@),
        (Action::Usage { bucket: s, options: pairs })@ == Step::Usage(s@, pairs.deep_view()),
        Action::CreateBucket(s)@ == Step::CreateBucket(s@),
        Action::DeleteBucket(s)@ == Step::DeleteBucket(s@),
        (Action::UrlCommand { url: s, report: gap })@ == Step::UrlCommand(s@, gap),
        (Action::Heading { text: s, gap })@ == Step::Heading(s@, gap),
        Action::ChangeS3Type(word)@ == Step::ChangeS3Type(word@),
        Action::ChangeAuthType(word)@ == Step::ChangeAuthType(word@),
        Action::ChangeFormatType(word)@ == Step::ChangeFormatType(word@),
        Action::ChangeUrlStyle(word)@ == Step::ChangeUrlStyle(word@),
        Action::ChangeLogType(s)@ == Step::ChangeLogType(s@),
{
}

} // verus!
