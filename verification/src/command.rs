//! The commands of the client and what each stands for: the handler calls
//! to make and the lines to print, in order.
use vstd::prelude::*;
use crate::handler::{has_s3_scheme, word_pairs};
use crate::patterns::{regex_s3_captures, s3_captures};
use crate::text::{chars_of, key_values, split_words, starts_with, str_eq, str_starts_with, views, words};

verus! {

/// What a `tag` command does with the tags of an object.
#[derive(Clone, Copy, Debug, PartialEq, Eq, Structural)]
pub enum TagAction {
    List,
    Add,
    Delete,
}

/// A tag action that is none of `list`, `ls`, `add`, `put`, `del`, `rm`.
#[derive(Clone, Copy, Debug, PartialEq, Eq, Structural)]
pub struct UnknownTagAction;

impl UnknownTagAction {
    /// The error's text.
    pub fn message(&self) -> (r: &'static str)
        ensures
            r@ == "Unknown tag action"@,
    {
        "Unknown tag action"
    }

    /// The line that the client prints when it meets an unknown tag action.
    pub fn usage(&self) -> (r: &'static str)
        ensures
            r@ == "only support these tag actions: list, ls, add, put, del, rm"@,
    {
        "only support these tag actions: list, ls, add, put, del, rm"
    }
}

/// The tag action that a word names.
pub open spec fn tag_action_of(s: Seq<char>) -> Option<TagAction> {
    if s == "list"@ || s == "ls"@ {
        Some(TagAction::List)
    } else if s == "add"@ || s == "put"@ {
        Some(TagAction::Add)
    } else if s == "del"@ || s == "rm"@ {
        Some(TagAction::Delete)
    } else {
        None
    }
}

impl TagAction {
    /// Reads a tag action: `list`/`ls`, `add`/`put`, `del`/`rm`.
    pub fn parse(s: &str) -> (r: Result<TagAction, UnknownTagAction>)
        ensures
            match tag_action_of(s@) {
                Some(a) => r == Ok::<TagAction, UnknownTagAction>(a),
                None => r == Err::<TagAction, _>(UnknownTagAction),
            },
    {
        if str_eq(s, "list") || str_eq(s, "ls") {
            Ok(TagAction::List)
        } else if str_eq(s, "add") || str_eq(s, "put") {
            Ok(TagAction::Add)
        } else if str_eq(s, "del") || str_eq(s, "rm") {
            Ok(TagAction::Delete)
        } else {
            Err(UnknownTagAction)
        }
    }

    pub open spec fn text(self) -> Seq<char> {
        match self {
            TagAction::List => "list tag"@,
            TagAction::Add => "add tag"@,
            TagAction::Delete => "delete tag"@,
        }
    }

    /// How the action is shown.
    pub fn to_display_string(&self) -> (r: String)
        ensures
            r@ == self.text(),
    {
        match self {
            TagAction::List => "list tag".to_owned(),
            TagAction::Add => "add tag".to_owned(),
            TagAction::Delete => "delete tag".to_owned(),
        }
    }
}

impl std::str::FromStr for TagAction {
    type Err = UnknownTagAction;

    fn from_str(s: &str) -> (r: Result<TagAction, UnknownTagAction>)
        ensures
            match tag_action_of(s@) {
                Some(a) => r == Ok::<TagAction, UnknownTagAction>(a),
                None => r == Err::<TagAction, _>(UnknownTagAction),
            },
    {
        TagAction::parse(s)
    }
}

/// The S3 flavour that `s3_type` switches to.
#[derive(Clone, Copy, Debug, PartialEq, Eq, Structural)]
pub enum S3Type {
    AWS,
    CEPH,
    AWS4,
    AWS2,
}

/// The signature version that `auth_type` switches to.
#[derive(Clone, Copy, Debug, PartialEq, Eq, Structural)]
pub enum AuthType {
    AWS2,
    AWS4,
}

/// A response format.
#[derive(Clone, Copy, Debug, PartialEq, Eq, Structural)]
pub enum FormatType {
    XML,
    JSON,
}

/// A URL style.
#[derive(Clone, Copy, Debug, PartialEq, Eq, Structural)]
pub enum UrlStyle {
    Path,
    Host,
}

impl S3Type {
    pub open spec fn text(self) -> &'static str {
        match self {
            S3Type::AWS => "aws",
            S3Type::CEPH => "ceph",
            S3Type::AWS4 => "aws4",
            S3Type::AWS2 => "aws2",
        }
    }
}

impl AuthType {
    pub open spec fn text(self) -> &'static str {
        match self {
            AuthType::AWS2 => "aws2",
            AuthType::AWS4 => "aws4",
        }
    }
}

impl FormatType {
    pub open spec fn text(self) -> &'static str {
        match self {
            FormatType::XML => "xml",
            FormatType::JSON => "json",
        }
    }
}

impl UrlStyle {
    pub open spec fn text(self) -> &'static str {
        match self {
            UrlStyle::Path => "path",
            UrlStyle::Host => "host",
        }
    }
}

impl From<S3Type> for &'static str {
    fn from(t: S3Type) -> (r: &'static str) {
        match t {
            S3Type::AWS => "aws",
            S3Type::CEPH => "ceph",
            S3Type::AWS4 => "aws4",
            S3Type::AWS2 => "aws2",
        }
    }
}

impl vstd::std_specs::convert::FromSpecImpl<S3Type> for &'static str {
    open spec fn obeys_from_spec() -> bool {
        true
    }

    open spec fn from_spec(t: S3Type) -> &'static str {
        t.text()
    }
}

impl From<AuthType> for &'static str {
    fn from(t: AuthType) -> (r: &'static str) {
        match t {
            AuthType::AWS2 => "aws2",
            AuthType::AWS4 => "aws4",
        }
    }
}

impl vstd::std_specs::convert::FromSpecImpl<AuthType> for &'static str {
    open spec fn obeys_from_spec() -> bool {
        true
    }

    open spec fn from_spec(t: AuthType) -> &'static str {
        t.text()
    }
}

impl From<FormatType> for &'static str {
    fn from(t: FormatType) -> (r: &'static str) {
        match t {
            FormatType::XML => "xml",
            FormatType::JSON => "json",
        }
    }
}

impl vstd::std_specs::convert::FromSpecImpl<FormatType> for &'static str {
    open spec fn obeys_from_spec() -> bool {
        true
    }

    open spec fn from_spec(t: FormatType) -> &'static str {
        t.text()
    }
}

impl From<UrlStyle> for &'static str {
    fn from(t: UrlStyle) -> (r: &'static str) {
        match t {
            UrlStyle::Path => "path",
            UrlStyle::Host => "host",
        }
    }
}

impl vstd::std_specs::convert::FromSpecImpl<UrlStyle> for &'static str {
    open spec fn obeys_from_spec() -> bool {
        true
    }

    open spec fn from_spec(t: UrlStyle) -> &'static str {
        t.text()
    }
}

/// The commands of the client.
#[allow(inconsistent_fields)]
pub enum S3rsCmd {
    /// `la`: every object of every bucket.
    ListAll,
    /// `ls [s3://bucket[/prefix]]`.
    List { uri: Option<String> },
    /// `ll [s3://bucket[/prefix]]`: objects with their details.
    Detail { uri: Option<String> },
    /// `mb s3://bucket`.
    CreateBucket { bucket: String },
    /// `rb s3://bucket`.
    DeleteBucket { bucket: String },
    /// `put <file> s3://bucket[/object]`.
    Put { file: String, uri: String },
    /// `get s3://bucket/object [file]`.
    Get { uri: String, file: Option<String> },
    /// `cat s3://bucket/object`.
    Cat { uri: String },
    /// `del s3://bucket/object [header:value ...]`.
    Del { uri: String, marker: Option<String> },
    /// `rm`, the same as `del`.
    Rm { uri: String, marker: Option<String> },
    /// `tag list|add|del s3://bucket/object [key=value ...]`.
    Tag { action: TagAction, uri: String, tags: Option<String> },
    /// `/<uri>?<query>`.
    Query { url: String },
    /// `log trace|debug|info|error`.
    Log(String),
    /// `s3_type ceph|aws|aws4|aws2`.
    S3Type(S3Type),
    /// `auth_type aws2|aws4`.
    AuthType(AuthType),
    /// `format xml|json`.
    Format(FormatType),
    /// `url-style path|host`.
    UrlStyle(UrlStyle),
    /// `logout`.
    Logout,
    /// `usage s3://bucket [key=value ...]`.
    Usage { bucket: String, options: Option<String> },
    /// `info s3://bucket`.
    Info { bucket: String },
    /// `quit`.
    Quit,
}

/// The command line of the client.
pub struct Cli {
    /// The name of a configuration file under the configuration folder, or its path.
    pub config: Option<String>,
    /// The secret that the configuration is encrypted with.
    pub secret: Option<String>,
    pub s3rs_cmd: Option<S3rsCmd>,
}

/// One step of a command: a handler call, a printed heading, or a mode change.
#[allow(inconsistent_fields)]
pub enum Action {
    ListAll,
    List(Option<String>),
    /// The detailed listing of every object: the listing that `la` gives,
    /// printed as the heading and one row per object (`detail_lines`).
    DetailAll,
    /// The detailed listing of a bucket or prefix: the listing that `ls` of
    /// the address gives, printed as the heading and one row per object
    /// (`detail_lines`).
    DetailOf(String),
    Put { file: String, uri: String },
    Get { uri: String, file: Option<String> },
    Cat(String),
    DeleteWithHeaders { uri: String, headers: Vec<(String, String)> },
    ListTag(String),
    AddTag { uri: String, tags: Vec<(String, String)> },
    DeleteTag(String),
    Usage { bucket: String, options: Vec<(String, String)> },
    CreateBucket(String),
    DeleteBucket(String),
    /// A raw `path?query` request; its failure is reported when `report`.
    UrlCommand { url: String, report: bool },
    /// A heading in yellow; a blank line before it when `gap`.
    Heading { text: String, gap: bool },
    ChangeS3Type(&'static str),
    ChangeAuthType(&'static str),
    ChangeFormatType(&'static str),
    ChangeUrlStyle(&'static str),
    ChangeLogType(String),
}

/// An action as a mathematical value.
pub enum Step {
    ListAll,
    List(Option<Seq<char>>),
    DetailAll,
    DetailOf(Seq<char>),
    Put(Seq<char>, Seq<char>),
    Get(Seq<char>, Option<Seq<char>>),
    Cat(Seq<char>),
    DeleteWithHeaders(Seq<char>, Seq<(Seq<char>, Seq<char>)>),
    ListTag(Seq<char>),
    AddTag(Seq<char>, Seq<(Seq<char>, Seq<char>)>),
    DeleteTag(Seq<char>),
    Usage(Seq<char>, Seq<(Seq<char>, Seq<char>)>),
    CreateBucket(Seq<char>),
    DeleteBucket(Seq<char>),
    UrlCommand(Seq<char>, bool),
    Heading(Seq<char>, bool),
    ChangeS3Type(Seq<char>),
    ChangeAuthType(Seq<char>),
    ChangeFormatType(Seq<char>),
    ChangeUrlStyle(Seq<char>),
    ChangeLogType(Seq<char>),
}

impl View for Action {
    type V = Step;

    open spec fn view(&self) -> Step {
        match self {
            Action::ListAll => Step::ListAll,
            Action::List(u) => Step::List(u.deep_view()),
            Action::DetailAll => Step::DetailAll,
            Action::DetailOf(u) => Step::DetailOf(u@),
            Action::Put { file, uri } => Step::Put(file@, uri@),
            Action::Get { uri, file } => Step::Get(uri@, file.deep_view()),
            Action::Cat(u) => Step::Cat(u@),
            Action::DeleteWithHeaders { uri, headers } => Step::DeleteWithHeaders(uri@, headers.deep_view()),
            Action::ListTag(u) => Step::ListTag(u@),
            Action::AddTag { uri, tags } => Step::AddTag(uri@, tags.deep_view()),
            Action::DeleteTag(u) => Step::DeleteTag(u@),
            Action::Usage { bucket, options } => Step::Usage(bucket@, options.deep_view()),
            Action::CreateBucket(b) => Step::CreateBucket(b@),
            Action::DeleteBucket(b) => Step::DeleteBucket(b@),
            Action::UrlCommand { url, report } => Step::UrlCommand(url@, *report),
            Action::Heading { text, gap } => Step::Heading(text@, *gap),
            Action::ChangeS3Type(t) => Step::ChangeS3Type(t@),
            Action::ChangeAuthType(t) => Step::ChangeAuthType(t@),
            Action::ChangeFormatType(t) => Step::ChangeFormatType(t@),
            Action::ChangeUrlStyle(t) => Step::ChangeUrlStyle(t@),
            Action::ChangeLogType(t) => Step::ChangeLogType(t@),
        }
    }
}

/// The text of an optional argument, empty when it is missing.
pub open spec fn opt_text(s: Option<String>) -> Seq<char> {
    match s {
        Some(t) => t@,
        None => Seq::empty(),
    }
}

/// The bucket that `info` reports on: the bucket of an S3 address, else the word itself.
pub open spec fn info_bucket(b: Seq<char>) -> Seq<char> {
    if has_s3_scheme(b) {
        s3_captures(b)->Some_0.0
    } else {
        b
    }
}

/// `/` + bucket + `?` + a sub-resource.
pub open spec fn sub_resource(bucket: Seq<char>, what: Seq<char>) -> Seq<char> {
    seq!['/'] + bucket + seq!['?'] + what
}

/// The steps of `info`: location, ACL and versioning, and for a Ceph
/// server also the version and the pending uploads; a failed request is
/// not reported.
pub open spec fn info_steps(s3_type: Seq<char>, b: Seq<char>) -> Seq<Step> {
    seq![
        Step::Heading("location:"@, false),
        Step::UrlCommand(sub_resource(b, "location"@), false),
        Step::Heading("acl:"@, true),
        Step::UrlCommand(sub_resource(b, "acl"@), false),
        Step::Heading("versioning:"@, true),
        Step::UrlCommand(sub_resource(b, "versioning"@), false),
    ] + if s3_type == "ceph"@ {
        seq![
            Step::Heading("version:"@, true),
            Step::UrlCommand(sub_resource(b, "version"@), false),
            Step::Heading("uploads:"@, true),
            Step::UrlCommand(sub_resource(b, "uploads"@), false),
        ]
    } else {
        Seq::empty()
    }
}

/// The steps that a command stands for.
pub open spec fn command_steps(s3_type: Seq<char>, command: Option<S3rsCmd>) -> Seq<Step> {
    match command {
        None => Seq::empty(),
        Some(c) => match c {
            S3rsCmd::ListAll => seq![Step::ListAll],
            S3rsCmd::List { uri } => seq![Step::List(uri.deep_view())],
            S3rsCmd::Detail { uri } => match uri {
                Some(u) => seq![Step::DetailOf(u@)],
                None => seq![Step::DetailAll],
            },
            S3rsCmd::CreateBucket { bucket } => seq![Step::CreateBucket(bucket@)],
            S3rsCmd::DeleteBucket { bucket } => seq![Step::DeleteBucket(bucket@)],
            S3rsCmd::Put { file, uri } => seq![Step::Put(file@, uri@)],
            S3rsCmd::Get { uri, file } => seq![Step::Get(uri@, file.deep_view())],
            S3rsCmd::Cat { uri } => seq![Step::Cat(uri@)],
            S3rsCmd::Del { uri, marker } => seq![Step::DeleteWithHeaders(uri@, key_values(opt_text(marker), ':'))],
            S3rsCmd::Rm { uri, marker } => seq![Step::DeleteWithHeaders(uri@, key_values(opt_text(marker), ':'))],
            S3rsCmd::Tag { action, uri, tags } => match action {
                TagAction::List => seq![Step::ListTag(uri@)],
                TagAction::Add => seq![Step::AddTag(uri@, key_values(opt_text(tags), '='))],
                TagAction::Delete => seq![Step::DeleteTag(uri@)],
            },
            S3rsCmd::Query { url } => seq![Step::UrlCommand(url@, true)],
            S3rsCmd::Log(t) => seq![Step::ChangeLogType(t@)],
            S3rsCmd::S3Type(t) => seq![Step::ChangeS3Type(t.text()@)],
            S3rsCmd::AuthType(t) => seq![Step::ChangeAuthType(t.text()@)],
            S3rsCmd::Format(t) => seq![Step::ChangeFormatType(t.text()@)],
            S3rsCmd::UrlStyle(t) => seq![Step::ChangeUrlStyle(t.text()@)],
            S3rsCmd::Logout => Seq::empty(),
            S3rsCmd::Usage { bucket, options } => seq![Step::Usage(bucket@, key_values(opt_text(options), '='))],
            S3rsCmd::Info { bucket } => info_steps(s3_type, info_bucket(bucket@)),
            S3rsCmd::Quit => Seq::empty(),
        },
    }
}

/// Whether a command can be planned: the bucket of `info`, when written as
/// an S3 address, must match `S3_FORMAT` (the client stops otherwise).
pub open spec fn command_ok(command: Option<S3rsCmd>) -> bool {
    command matches Some(S3rsCmd::Info { bucket }) ==> (has_s3_scheme(bucket@) ==> s3_captures(bucket@) is Some)
}

pub open spec fn steps_of(v: Seq<Action>) -> Seq<Step> {
    v.map_values(|a: Action| a@)
}

fn one(a: Action) -> (r: Vec<Action>)
    ensures
        steps_of(r@) == seq![a@],
{
    let mut v: Vec<Action> = Vec::new();
    v.push(a);
    assert(steps_of(v@) =~= seq![a@]);
    v
}

fn opt_str(s: &Option<String>) -> (r: &str)
    ensures
        r@ == opt_text(*s),
{
    match s {
        Some(t) => t.as_str(),
        None => {
            let e = "";
            proof {
                reveal_strlit("");
                assert(e@ =~= Seq::<char>::empty());
            }
            e
        },
    }
}

/// `/` + bucket + `?` + a sub-resource.
fn sub_resource_url(bucket: &str, what: &str) -> (r: String)
    ensures
        r@ == sub_resource(bucket@, what@),
{
    let mut s = "/".to_owned();
    s.append(bucket);
    s.append("?");
    s.append(what);
    proof {
        reveal_strlit("/");
        reveal_strlit("?");
    }
    s
}

fn push_step(v: &mut Vec<Action>, a: Action)
    ensures
        steps_of(final(v)@) == steps_of(old(v)@).push(a@),
{
    v.push(a);
    assert(steps_of(v@) =~= steps_of(old(v)@).push(a@));
}

/// The steps of `info` for a bucket.
fn info_actions(s3_type: &str, bucket: &str) -> (r: Vec<Action>)
    ensures
        steps_of(r@) == info_steps(s3_type@, bucket@),
{
    let mut v: Vec<Action> = Vec::new();
    push_step(&mut v, Action::Heading { text: "location:".to_owned(), gap: false });
    push_step(&mut v, Action::UrlCommand { url: sub_resource_url(bucket, "location"), report: false });
    push_step(&mut v, Action::Heading { text: "acl:".to_owned(), gap: true });
    push_step(&mut v, Action::UrlCommand { url: sub_resource_url(bucket, "acl"), report: false });
    push_step(&mut v, Action::Heading { text: "versioning:".to_owned(), gap: true });
    push_step(&mut v, Action::UrlCommand { url: sub_resource_url(bucket, "versioning"), report: false });
    let ghost first = steps_of(v@);
    if str_eq(s3_type, "ceph") {
        push_step(&mut v, Action::Heading { text: "version:".to_owned(), gap: true });
        push_step(&mut v, Action::UrlCommand { url: sub_resource_url(bucket, "version"), report: false });
        push_step(&mut v, Action::Heading { text: "uploads:".to_owned(), gap: true });
        push_step(&mut v, Action::UrlCommand { url: sub_resource_url(bucket, "uploads"), report: false });
    }
    assert(steps_of(v@) =~= info_steps(s3_type@, bucket@));
    v
}

/// What a command stands for: the handler calls to make and the headings to
/// print, in order. `Logout`, `Quit` and no command stand for nothing here
/// (the interactive loop handles them).
pub fn do_command(s3_type: &str, command: Option<S3rsCmd>) -> (r: Vec<Action>)
    requires
        command_ok(command),
    ensures
        steps_of(r@) == command_steps(s3_type@, command),
{
    match command {
        None => {
            let v: Vec<Action> = Vec::new();
            assert(steps_of(v@) =~= Seq::<Step>::empty());
            v
        },
        Some(c) => match c {
            S3rsCmd::ListAll => one(Action::ListAll),
            S3rsCmd::List { uri } => one(Action::List(uri)),
            S3rsCmd::Detail { uri } => match uri {
                Some(u) => one(Action::DetailOf(u)),
                None => one(Action::DetailAll),
            },
            S3rsCmd::CreateBucket { bucket } => one(Action::CreateBucket(bucket)),
            S3rsCmd::DeleteBucket { bucket } => one(Action::DeleteBucket(bucket)),
            S3rsCmd::Put { file, uri } => one(Action::Put { file, uri }),
            S3rsCmd::Get { uri, file } => one(Action::Get { uri, file }),
            S3rsCmd::Cat { uri } => one(Action::Cat(uri)),
            S3rsCmd::Del { uri, marker } => {
                let headers = word_pairs(opt_str(&marker), ':');
                one(Action::DeleteWithHeaders { uri, headers })
            },
            S3rsCmd::Rm { uri, marker } => {
                let headers = word_pairs(opt_str(&marker), ':');
                one(Action::DeleteWithHeaders { uri, headers })
            },
            S3rsCmd::Tag { action, uri, tags } => match action {
                TagAction::List => one(Action::ListTag(uri)),
                TagAction::Add => {
                    let tags = word_pairs(opt_str(&tags), '=');
                    one(Action::AddTag { uri, tags })
                },
                TagAction::Delete => one(Action::DeleteTag(uri)),
            },
            S3rsCmd::Query { url } => one(Action::UrlCommand { url, report: true }),
            S3rsCmd::Log(t) => one(Action::ChangeLogType(t)),
            S3rsCmd::S3Type(t) => one(Action::ChangeS3Type(t.into())),
            S3rsCmd::AuthType(t) => one(Action::ChangeAuthType(t.into())),
            S3rsCmd::Format(t) => one(Action::ChangeFormatType(t.into())),
            S3rsCmd::UrlStyle(t) => one(Action::ChangeUrlStyle(t.into())),
            S3rsCmd::Usage { bucket, options } => {
                let options = word_pairs(opt_str(&options), '=');
                one(Action::Usage { bucket, options })
            },
            S3rsCmd::Info { bucket } => {
                let scheme = str_starts_with(bucket.as_str(), "s3://") || str_starts_with(bucket.as_str(), "S3://");
                if scheme {
                    match regex_s3_captures(bucket.as_str()) {
                        Some((b, _o)) => info_actions(s3_type, b.as_str()),
                        None => {
                            let v: Vec<Action> = Vec::new();
                            v
                        },
                    }
                } else {
                    info_actions(s3_type, bucket.as_str())
                }
            },
            S3rsCmd::Logout | S3rsCmd::Quit => {
                let v: Vec<Action> = Vec::new();
                assert(steps_of(v@) =~= Seq::<Step>::empty());
                v
            },
        },
    }
}

/// What a line typed at the prompt asks for.
pub enum InputLine {
    /// A line that starts with `logout`: choose the account again.
    Logout,
    /// A line that starts with `exit` or `quit`: leave the client.
    Exit,
    /// A line that starts with `/`: a raw `path?query` request.
    Query(String),
    /// Any other line: its words, to be read as a command.
    Words(Vec<String>),
}

/// Whether a typed line asks to log out.
pub open spec fn is_logout_line(line: Seq<char>) -> bool {
    starts_with(line, "logout"@)
}

/// Whether a typed line asks to leave the client.
pub open spec fn is_exit_line(line: Seq<char>) -> bool {
    !is_logout_line(line) && (starts_with(line, "exit"@) || starts_with(line, "quit"@))
}

/// Reads a line typed at the prompt: `logout`, `exit` or `quit` first (as
/// prefixes), then a raw request starting with `/`, else the words of a command.
pub fn classify_line(line: &str) -> (r: InputLine)
    ensures
        match r {
            InputLine::Logout => is_logout_line(line@),
            InputLine::Exit => is_exit_line(line@),
            InputLine::Query(u) => !is_logout_line(line@) && !is_exit_line(line@) && starts_with(line@, "/"@)
                && u@ == line@,
            InputLine::Words(w) => !is_logout_line(line@) && !is_exit_line(line@) && !starts_with(
                line@,
                "/"@,
            ) && views(w@) == words(line@),
        },
{
    if str_starts_with(line, "logout") {
        InputLine::Logout
    } else if str_starts_with(line, "exit") || str_starts_with(line, "quit") {
        InputLine::Exit
    } else if str_starts_with(line, "/") {
        InputLine::Query(line.to_owned())
    } else {
        let chars = chars_of(line);
        InputLine::Words(split_words(&chars))
    }
}

} // verus!
