//! The S3 request handler: which request each operation sends, how the
//! request is signed (AWS v2 or v4), and how the handler's modes change.
use vstd::prelude::*;
use vstd::utf8::encode_utf8;
use crate::patterns::{regex_s3_captures, s3_captures};
use crate::text::{ends_with, starts_with, chars_of, key_values, split_words, words, find_char, key_value, lemma_split_char_len, split_char, split_on, string_of_range, views};

verus! {

/// The signature version of the requests.
#[derive(Clone, Copy, Debug, PartialEq, Eq, Structural)]
pub enum AuthType {
    AWS4,
    AWS2,
}

/// The response format that the server is asked for.
#[derive(Clone, Copy, Debug, PartialEq, Eq, Structural)]
pub enum Format {
    JSON,
    XML,
}

/// Whether the bucket goes into the path or into the host name.
#[derive(Clone, Copy, Debug, PartialEq, Eq, Structural)]
pub enum UrlStyle {
    PATH,
    HOST,
}

/// The HTTP verb of a request.
#[derive(Clone, Copy, Debug, PartialEq, Eq, Structural)]
pub enum Method {
    Get,
    Put,
    Delete,
}

impl Method {
    pub open spec fn name(self) -> Seq<char> {
        match self {
            Method::Get => "GET"@,
            Method::Put => "PUT"@,
            Method::Delete => "DELETE"@,
        }
    }

    pub fn as_str(&self) -> (r: &'static str)
        ensures
            r@ == self.name(),
    {
        match self {
            Method::Get => "GET",
            Method::Put => "PUT",
            Method::Delete => "DELETE",
        }
    }
}

/// The refusals of the handler's operations.
#[derive(Clone, Copy, Debug, PartialEq, Eq, Structural)]
pub enum HandlerError {
    /// `put` without a file or a destination.
    MissingFileOrDestination,
    /// The address does not match `S3_FORMAT`.
    S3FormatError,
    /// `get` without a source.
    MissingSource,
    /// The address names a bucket but no object.
    MissingObject,
    /// `cat`, `del` or `tag` without a target.
    MissingTarget,
    /// `mb` or `rb` without a bucket name.
    MissingBucket,
}

impl HandlerError {
    pub open spec fn text(self) -> Seq<char> {
        match self {
            HandlerError::MissingFileOrDestination => "please specify the file and the destiney"@,
            HandlerError::S3FormatError => "S3 object format error."@,
            HandlerError::MissingSource => "Please specify the object"@,
            HandlerError::MissingObject => "Please specific the object"@,
            HandlerError::MissingTarget => "please specific the object"@,
            HandlerError::MissingBucket => "please specific the bucket name"@,
        }
    }

    /// The message that the client shows for the refusal.
    pub fn message(&self) -> (r: &'static str)
        ensures
            r@ == self.text(),
    {
        match self {
            HandlerError::MissingFileOrDestination => "please specify the file and the destiney",
            HandlerError::S3FormatError => "S3 object format error.",
            HandlerError::MissingSource => "Please specify the object",
            HandlerError::MissingObject => "Please specific the object",
            HandlerError::MissingTarget => "please specific the object",
            HandlerError::MissingBucket => "please specific the bucket name",
        }
    }
}

/// A request before signing: verb, virtual host (the bucket, for host-style
/// addresses), path, query pairs and body.
pub struct Request {
    pub method: Method,
    pub virtual_host: Option<String>,
    pub uri: String,
    pub query: Vec<(String, String)>,
    pub payload: Vec<u8>,
}

impl Request {
    pub open spec fn is(
        self,
        method: Method,
        virtual_host: Option<Seq<char>>,
        uri: Seq<char>,
        query: Seq<(Seq<char>, Seq<char>)>,
        payload: Seq<u8>,
    ) -> bool {
        &&& self.method == method
        &&& self.virtual_host.deep_view() == virtual_host
        &&& self.uri@ == uri
        &&& self.query.deep_view() == query
        &&& self.payload@ == payload
    }
}

/// A signed request, ready to send.
pub struct SignedRequest {
    pub method: Method,
    pub url: String,
    pub headers: Vec<(String, String)>,
    pub body: Vec<u8>,
}

/// What a listing prints for each name that the response holds.
pub enum Listing {
    /// Objects of a bucket: a JSON listing prints `json_prefix` + key, an XML
    /// listing `xml_prefix` + key + ` `.
    Objects { json_prefix: String, xml_prefix: String },
    /// Buckets: `S3://` + name + ` `.
    Buckets,
}

/// The request of `ls` and how its answer is printed.
pub struct ListPlan {
    pub request: Request,
    pub listing: Listing,
}

/// What `put` sends once the checks have passed.
pub struct PutPlan {
    /// The small test text is sent in place of a file.
    pub test_content: bool,
    /// The path of the object; `None` where the object path is empty and the
    /// file has no final name to take its place (the client stops there).
    pub uri: Option<String>,
}

/// The S3 handler: server, credentials and modes.
pub struct Handler<'a> {
    pub host: &'a str,
    pub access_key: &'a str,
    pub secrete_key: &'a str,
    pub auth_type: AuthType,
    pub format: Format,
    pub url_style: UrlStyle,
    pub region: Option<String>,
}

// ---------------------------------------------------------------------------
// What the signing functions of s3handler return.
/// `s3handler::blocking::aws::canonical_query_string` of the pairs.
pub uninterp spec fn canonical_query(qs: Seq<(Seq<char>, Seq<char>)>) -> Seq<char>;

/// `s3handler::blocking::aws::aws_s3_v2_get_string_to_signed`.
pub uninterp spec fn v2_string_to_sign(
    method: Seq<char>,
    uri: Seq<char>,
    headers: Seq<(Seq<char>, Seq<char>)>,
    content: Seq<u8>,
) -> Seq<char>;

/// `s3handler::blocking::aws::aws_s3_v2_sign`.
pub uninterp spec fn v2_signature(secret: Seq<char>, data: Seq<char>) -> Seq<char>;

/// `s3handler::blocking::aws::hash_payload`.
pub uninterp spec fn payload_hash(payload: Seq<u8>) -> Seq<char>;

/// `s3handler::blocking::aws::aws_v4_get_string_to_signed`.
pub uninterp spec fn v4_string_to_sign(
    method: Seq<char>,
    uri: Seq<char>,
    qs: Seq<(Seq<char>, Seq<char>)>,
    headers: Seq<(Seq<char>, Seq<char>)>,
    payload: Seq<u8>,
    time: Seq<char>,
    region: Seq<char>,
    iam: bool,
) -> Seq<char>;

/// `s3handler::blocking::aws::aws_v4_sign`.
pub uninterp spec fn v4_signature(
    secret: Seq<char>,
    data: Seq<char>,
    date: Seq<char>,
    region: Seq<char>,
    iam: bool,
) -> Seq<char>;

/// `s3handler::blocking::aws::sign_headers`.
pub uninterp spec fn signed_header_list(headers: Seq<(Seq<char>, Seq<char>)>) -> Seq<char>;

/// `s3handler::blocking::aws::canonical_query_string`: the query pairs sorted by key and
/// form-urlencoded. The contract names the result and claims nothing else.
#[verifier::external_body]
fn aws_canonical_query_string(qs: &Vec<(String, String)>) -> (r: String)
    ensures
        r@ == canonical_query(qs.deep_view()),
{
    let mut q: Vec<(&str, &str)> = qs.iter().map(|p| (p.0.as_str(), p.1.as_str())).collect();
    s3handler::blocking::aws::canonical_query_string(&mut q)
}

/// `s3handler::blocking::aws::aws_s3_v2_get_string_to_signed`: verb, content digest,
/// content type, date and amz headers, then the path. Named, nothing else claimed.
#[verifier::external_body]
fn aws_v2_string_to_sign(method: &str, uri: &str, headers: &Vec<(String, String)>, content: &Vec<u8>) -> (r: String)
    ensures
        r@ == v2_string_to_sign(method@, uri@, headers.deep_view(), content@),
{
    let mut h: Vec<(&str, &str)> = headers.iter().map(|p| (p.0.as_str(), p.1.as_str())).collect();
    s3handler::blocking::aws::aws_s3_v2_get_string_to_signed(method, uri, &mut h, content)
}

/// `s3handler::blocking::aws::aws_s3_v2_sign`: base64 of HMAC-SHA1. Named, nothing else claimed.
#[verifier::external_body]
fn aws_v2_sign(secret: &str, data: &str) -> (r: String)
    ensures
        r@ == v2_signature(secret@, data@),
{
    s3handler::blocking::aws::aws_s3_v2_sign(secret, data)
}

/// `s3handler::blocking::aws::hash_payload`: hex of SHA-256. Named, nothing else claimed.
#[verifier::external_body]
fn aws_hash_payload(payload: &Vec<u8>) -> (r: String)
    ensures
        r@ == payload_hash(payload@),
{
    s3handler::blocking::aws::hash_payload(payload)
}

/// `s3handler::blocking::aws::aws_v4_get_string_to_signed`. Its body reads the first
/// eight bytes of `time` unchecked, so `time` must hold at least eight ASCII
/// characters. Named, nothing else claimed.
#[verifier::external_body]
fn aws_v4_string_to_sign(
    method: &str,
    uri: &str,
    qs: &Vec<(String, String)>,
    headers: &Vec<(String, String)>,
    payload: &Vec<u8>,
    time: &str,
    region: &str,
) -> (r: String)
    requires
        time@.len() >= 8,
        vstd::utf8::is_ascii_chars(time@),
    ensures
        r@ == v4_string_to_sign(
            method@,
            uri@,
            qs.deep_view(),
            headers.deep_view(),
            payload@,
            time@,
            region@,
            false,
        ),
{
    let mut q: Vec<(&str, &str)> = qs.iter().map(|p| (p.0.as_str(), p.1.as_str())).collect();
    let mut h: Vec<(&str, &str)> = headers.iter().map(|p| (p.0.as_str(), p.1.as_str())).collect();
    s3handler::blocking::aws::aws_v4_get_string_to_signed(
        method, uri, &mut q, &mut h, payload, time.to_string(), region, false,
    )
}

/// `s3handler::blocking::aws::aws_v4_sign`: the chained HMAC-SHA256 of the date, region,
/// service and request. Named, nothing else claimed.
#[verifier::external_body]
fn aws_v4_sign(secret: &str, data: &str, date: &str, region: &str) -> (r: String)
    ensures
        r@ == v4_signature(secret@, data@, date@, region@, false),
{
    s3handler::blocking::aws::aws_v4_sign(secret, data, date.to_string(), region, false)
}

/// `s3handler::blocking::aws::sign_headers`: the lower-cased header names, sorted, joined by `;`.
/// Named, nothing else claimed.
#[verifier::external_body]
fn aws_sign_headers(headers: &Vec<(String, String)>) -> (r: String)
    ensures
        r@ == signed_header_list(headers.deep_view()),
{
    let mut h: Vec<(&str, &str)> = headers.iter().map(|p| (p.0.as_str(), p.1.as_str())).collect();
    s3handler::blocking::aws::sign_headers(&mut h)
}

/// The final component of a path (`Path::file_name`), as text.
pub uninterp spec fn path_file_name(p: Seq<char>) -> Option<Seq<char>>;

/// `std::path::Path::file_name`, lossily decoded. Named, nothing else claimed.
#[verifier::external_body]
fn file_name_of(p: &str) -> (r: Option<String>)
    ensures
        r.deep_view() == path_file_name(p@),
{
    std::path::Path::new(p).file_name().map(|n| n.to_string_lossy().into_owned())
}

// ---------------------------------------------------------------------------
// The requests of the operations.
/// Where an object request goes: path style puts the bucket in the path,
/// host style in the host name.
pub open spec fn addressed(style: UrlStyle, bucket: Seq<char>, object: Seq<char>) -> (
    Option<Seq<char>>,
    Seq<char>,
) {
    match style {
        UrlStyle::PATH => (None, seq!['/'] + bucket + object),
        UrlStyle::HOST => (Some(bucket), object),
    }
}

pub open spec fn no_query() -> Seq<(Seq<char>, Seq<char>)> {
    Seq::empty()
}

/// The body of a tagging request.
pub open spec fn tagging_xml(tags: Seq<(Seq<char>, Seq<char>)>) -> Seq<char>
    decreases tags.len(),
{
    if tags.len() == 0 {
        "<Tagging><TagSet>"@
    } else {
        tagging_xml(tags.drop_last()) + "<Tag><Key>"@ + tags.last().0 + "</Key><Value>"@
            + tags.last().1 + "</Value></Tag>"@
    }
}

pub open spec fn tagging_payload(tags: Seq<(Seq<char>, Seq<char>)>) -> Seq<char> {
    tagging_xml(tags) + "</TagSet></Tagging>"@
}

/// The query pairs that `url_command` reads out of an address `path?a=b&c`.
pub open spec fn url_query(url: Seq<char>) -> (Seq<char>, Seq<(Seq<char>, Seq<char>)>) {
    if url.contains('?') {
        let i = choose|i: int| 0 <= i < url.len() && url[i] == '?' && forall|j: int|
            0 <= j < i ==> url[j] != '?';
        (
            url.subrange(0, i),
            split_char(url.subrange(i + 1, url.len() as int), '&').map_values(
                |q: Seq<char>| key_value(q, '='),
            ),
        )
    } else {
        (url, Seq::empty())
    }
}

/// The query pairs that a request carries: `format=json` first for a JSON handler.
pub open spec fn full_query(format: Format, qs: Seq<(Seq<char>, Seq<char>)>) -> Seq<
    (Seq<char>, Seq<char>),
> {
    match format {
        Format::JSON => seq![("format"@, "json"@)] + qs,
        Format::XML => qs,
    }
}

pub open spec fn region_or_default(region: Option<Seq<char>>) -> Seq<char> {
    match region {
        Some(r) => r,
        None => "us-east-1"@,
    }
}

/// The host that a v4 request goes to.
pub open spec fn v4_host(virtual_host: Option<Seq<char>>, host: Seq<char>) -> Seq<char> {
    match virtual_host {
        Some(v) => v + "."@ + host,
        None => host,
    }
}

/// The Authorization header of a v4 request.
pub open spec fn v4_authorization(
    access_key: Seq<char>,
    date: Seq<char>,
    region: Seq<char>,
    signed: Seq<char>,
    signature: Seq<char>,
) -> Seq<char> {
    "AWS4-HMAC-SHA256 Credential="@ + access_key + "/"@ + date + "/"@ + region
        + "/s3/aws4_request, SignedHeaders="@ + signed + ", Signature="@ + signature
}

/// `a + b` for a string and a literal.
fn cat(a: String, b: &str) -> (r: String)
    ensures
        r@ == a@ + b@,
{
    let mut s = a;
    s.append(b);
    s
}

fn pair(a: &str, b: &str) -> (r: (String, String))
    ensures
        r.deep_view() == (a@, b@),
{
    (a.to_owned(), b.to_owned())
}

fn clone_pairs(v: &Vec<(String, String)>) -> (r: Vec<(String, String)>)
    ensures
        r.deep_view() == v.deep_view(),
{
    let mut out: Vec<(String, String)> = Vec::new();
    let mut i: usize = 0;
    while i < v.len()
        invariant
            i <= v.len(),
            out.deep_view() == v.deep_view().take(i as int),
        decreases v.len() - i,
    {
        let p = (v[i].0.clone(), v[i].1.clone());
        let ghost prev = out.deep_view();
        out.push(p);
        assert(out.deep_view() =~= prev.push(v.deep_view()[i as int]));
        assert(out.deep_view() =~= v.deep_view().take(i + 1));
        i = i + 1;
    }
    assert(v.deep_view().take(v.len() as int) =~= v.deep_view());
    out
}

fn empty_query() -> (r: Vec<(String, String)>)
    ensures
        r.deep_view() == no_query(),
{
    let r: Vec<(String, String)> = Vec::new();
    assert(r.deep_view() =~= no_query());
    r
}

impl<'a> Handler<'a> {
    /// Whether `request` is what an operation sends: with v4 signing to the
    /// given virtual host and path, with v2 signing to the path-style path
    /// and no virtual host.
    pub open spec fn shaped(self, request: Request, method: Method, virtual_host: Option<Seq<char>>, uri: Seq<char>, v2_uri: Seq<char>, query: Seq<(Seq<char>, Seq<char>)>, payload: Seq<u8>) -> bool {
        match self.auth_type {
            AuthType::AWS4 => request.is(method, virtual_host, uri, query, payload),
            AuthType::AWS2 => request.is(method, None, v2_uri, query, payload),
        }
    }

    fn request(
        &self,
        method: Method,
        virtual_host: Option<String>,
        uri: String,
        v2_uri: String,
        query: Vec<(String, String)>,
        payload: Vec<u8>,
    ) -> (r: Request)
        ensures
            self.shaped(r, method, virtual_host.deep_view(), uri@, v2_uri@, query.deep_view(), payload@),
    {
        match self.auth_type {
            AuthType::AWS4 => Request { method, virtual_host, uri, query, payload },
            AuthType::AWS2 => Request { method, virtual_host: None, uri: v2_uri, query, payload },
        }
    }

    /// The bucket and object of a target, or the refusal that the client
    /// gives for it: an empty target, one that is not an S3 address, one
    /// without an object.
    pub open spec fn object_of(target: Seq<char>, empty: HandlerError) -> Result<(Seq<char>, Seq<char>), HandlerError> {
        if target.len() == 0 {
            Err(empty)
        } else {
            match s3_captures(target) {
                None => Err(HandlerError::S3FormatError),
                Some((b, o)) => if o.len() == 0 {
                    Err(HandlerError::MissingObject)
                } else {
                    Ok((b, o))
                },
            }
        }
    }

    fn object_target(target: &str, empty: HandlerError) -> (r: Result<(String, String), HandlerError>)
        ensures
            match r {
                Ok((b, o)) => Self::object_of(target@, empty) == Ok::<_, HandlerError>((b@, o@)),
                Err(e) => Self::object_of(target@, empty) == Err::<(Seq<char>, Seq<char>), _>(e),
            },
    {
        if target.is_empty() {
            return Err(empty);
        }
        match regex_s3_captures(target) {
            None => Err(HandlerError::S3FormatError),
            Some((b, o)) => {
                if o.as_str().is_empty() {
                    Err(HandlerError::MissingObject)
                } else {
                    Ok((b, o))
                }
            },
        }
    }

    /// `/` + bucket + object.
    fn object_path(bucket: &str, object: &str) -> (r: String)
        ensures
            r@ == seq!['/'] + bucket@ + object@,
    {
        let r = cat(cat("/".to_owned(), bucket), object);
        proof {
            reveal_strlit("/");
        }
        r
    }

    fn addressed_target(&self, bucket: &str, object: &str) -> (r: (Option<String>, String))
        ensures
            (r.0.deep_view(), r.1@) == addressed(self.url_style, bucket@, object@),
    {
        match self.url_style {
            UrlStyle::PATH => (None, Self::object_path(bucket, object)),
            UrlStyle::HOST => (Some(bucket.to_owned()), object.to_owned()),
        }
    }

    /// The request that downloads an object (`get`): path or host style for
    /// v4, path style for v2.
    pub fn get(&self, src: &str) -> (r: Result<Request, HandlerError>)
        ensures
            match Self::object_of(src@, HandlerError::MissingSource) {
                Err(e) => r == Err::<Request, _>(e),
                Ok((b, o)) => r is Ok && self.shaped(
                    r->Ok_0,
                    Method::Get,
                    addressed(self.url_style, b, o).0,
                    addressed(self.url_style, b, o).1,
                    seq!['/'] + b + o,
                    no_query(),
                    Seq::empty(),
                ),
            },
    {
        let (b, o) = match Self::object_target(src, HandlerError::MissingSource) {
            Ok(p) => p,
            Err(e) => return Err(e),
        };
        let (vh, uri) = self.addressed_target(b.as_str(), o.as_str());
        let v2 = Self::object_path(b.as_str(), o.as_str());
        Ok(self.request(Method::Get, vh, uri, v2, empty_query(), Vec::new()))
    }

    /// The file that `get` writes: the one given, else the final component of
    /// the source address. `None` where neither exists (the client stops there).
    pub fn download_file(src: &str, file: Option<&str>) -> (r: Option<String>)
        ensures
            match file {
                Some(f) => r.deep_view() == Some(f@),
                None => r.deep_view() == path_file_name(src@),
            },
    {
        match file {
            Some(f) => Some(f.to_owned()),
            None => file_name_of(src),
        }
    }

    /// The request that shows an object (`cat`); addressed as `get`.
    pub fn cat(&self, src: &str) -> (r: Result<Request, HandlerError>)
        ensures
            match Self::object_of(src@, HandlerError::MissingTarget) {
                Err(e) => r == Err::<Request, _>(e),
                Ok((b, o)) => r is Ok && self.shaped(
                    r->Ok_0,
                    Method::Get,
                    addressed(self.url_style, b, o).0,
                    addressed(self.url_style, b, o).1,
                    seq!['/'] + b + o,
                    no_query(),
                    Seq::empty(),
                ),
            },
    {
        let (b, o) = match Self::object_target(src, HandlerError::MissingTarget) {
            Ok(p) => p,
            Err(e) => return Err(e),
        };
        let (vh, uri) = self.addressed_target(b.as_str(), o.as_str());
        let v2 = Self::object_path(b.as_str(), o.as_str());
        Ok(self.request(Method::Get, vh, uri, v2, empty_query(), Vec::new()))
    }

    /// The request that deletes an object (`del`): `DELETE` of the object,
    /// addressed as `get`.
    pub fn del(&self, src: &str) -> (r: Result<Request, HandlerError>)
        ensures
            match Self::object_of(src@, HandlerError::MissingTarget) {
                Err(e) => r == Err::<Request, _>(e),
                Ok((b, o)) => r is Ok && self.shaped(
                    r->Ok_0,
                    Method::Delete,
                    addressed(self.url_style, b, o).0,
                    addressed(self.url_style, b, o).1,
                    seq!['/'] + b + o,
                    no_query(),
                    Seq::empty(),
                ),
            },
    {
        let (b, o) = match Self::object_target(src, HandlerError::MissingTarget) {
            Ok(p) => p,
            Err(e) => return Err(e),
        };
        let (vh, uri) = self.addressed_target(b.as_str(), o.as_str());
        let v2 = Self::object_path(b.as_str(), o.as_str());
        Ok(self.request(Method::Delete, vh, uri, v2, empty_query(), Vec::new()))
    }

    /// The request that tags an object (`tag`): `PUT ?tagging=` with the tag set as XML.
    pub fn tag(&self, target: &str, tags: &Vec<(String, String)>) -> (r: Result<Request, HandlerError>)
        ensures
            match Self::object_of(target@, HandlerError::MissingTarget) {
                Err(e) => r == Err::<Request, _>(e),
                Ok((b, o)) => r is Ok && self.shaped(
                    r->Ok_0,
                    Method::Put,
                    addressed(self.url_style, b, o).0,
                    addressed(self.url_style, b, o).1,
                    seq!['/'] + b + o,
                    seq![("tagging"@, Seq::<char>::empty())],
                    encode_utf8(tagging_payload(tags.deep_view())),
                ),
            },
    {
        let (b, o) = match Self::object_target(target, HandlerError::MissingTarget) {
            Ok(p) => p,
            Err(e) => return Err(e),
        };
        let (vh, uri) = self.addressed_target(b.as_str(), o.as_str());
        let v2 = Self::object_path(b.as_str(), o.as_str());
        let content = tagging_body(tags);
        let payload = content.as_str().as_bytes_vec();
        let mut query: Vec<(String, String)> = Vec::new();
        let t = pair("tagging", "");
        query.push(t);
        proof {
            reveal_strlit("");
            assert(query.deep_view() =~= seq![t.deep_view()]);
            assert(""@ =~= Seq::<char>::empty());
            assert(query.deep_view() =~= seq![("tagging"@, Seq::<char>::empty())]);
        }
        Ok(self.request(Method::Put, vh, uri, v2, query, payload))
    }

    /// The bucket that a `mb` or `rb` argument names, or the refusal for it.
    fn bucket_target(bucket: &str) -> (r: Result<String, HandlerError>)
        ensures
            match r {
                Ok(b) => bucket_of(bucket@) == Ok::<_, HandlerError>(b@),
                Err(e) => bucket_of(bucket@) == Err::<Seq<char>, _>(e),
            },
    {
        if bucket.is_empty() {
            return Err(HandlerError::MissingBucket);
        }
        let scheme = crate::text::str_starts_with(bucket, "s3://") || crate::text::str_starts_with(bucket, "S3://");
        if scheme {
            match regex_s3_captures(bucket) {
                Some((b, _o)) => Ok(b),
                None => Err(HandlerError::S3FormatError),
            }
        } else {
            Ok(bucket.to_owned())
        }
    }

    /// The request that creates a bucket (`mb`): `PUT` of `/` + the bucket
    /// that the argument names.
    pub fn mb(&self, bucket: &str) -> (r: Result<Request, HandlerError>)
        ensures
            match bucket_of(bucket@) {
                Err(e) => r == Err::<Request, _>(e),
                Ok(b) => r is Ok && r->Ok_0.is(Method::Put, None, seq!['/'] + b, no_query(), Seq::empty()),
            },
    {
        let b = match Self::bucket_target(bucket) {
            Ok(b) => b,
            Err(e) => return Err(e),
        };
        let uri = Self::object_path(b.as_str(), "");
        proof {
            reveal_strlit("");
            assert(seq!['/'] + b@ + ""@ =~= seq!['/'] + b@);
        }
        Ok(Request { method: Method::Put, virtual_host: None, uri, query: empty_query(), payload: Vec::new() })
    }

    /// The request that removes a bucket (`rb`): `DELETE` of `/` + the bucket
    /// that the argument names.
    pub fn rb(&self, bucket: &str) -> (r: Result<Request, HandlerError>)
        ensures
            match bucket_of(bucket@) {
                Err(e) => r == Err::<Request, _>(e),
                Ok(b) => r is Ok && r->Ok_0.is(Method::Delete, None, seq!['/'] + b, no_query(), Seq::empty()),
            },
    {
        let b = match Self::bucket_target(bucket) {
            Ok(b) => b,
            Err(e) => return Err(e),
        };
        let uri = Self::object_path(b.as_str(), "");
        proof {
            reveal_strlit("");
            assert(seq!['/'] + b@ + ""@ =~= seq!['/'] + b@);
        }
        Ok(Request { method: Method::Delete, virtual_host: None, uri, query: empty_query(), payload: Vec::new() })
    }

    /// The request of a raw `path?query` command: `GET` of the path with the
    /// query pairs read out of the address.
    pub fn url_command(&self, url: &str) -> (r: Request)
        ensures
            r.is(Method::Get, None, url_query(url@).0, url_query(url@).1, Seq::empty()),
    {
        let chars = chars_of(url);
        match find_char(&chars, '?') {
            None => {
                Request { method: Method::Get, virtual_host: None, uri: url.to_owned(), query: empty_query(), payload: Vec::new() }
            },
            Some(i) => {
                let uri = string_of_range(&chars, 0, i);
                let raw = chars_of(string_of_range(&chars, i + 1, chars.len()).as_str());
                let qs = query_pairs(&raw);
                proof {
                    let ghost j = choose|j: int| 0 <= j < url@.len() && url@[j] == '?' && forall|k: int| 0 <= k < j ==> url@[k] != '?';
                    assert(j == i as int) by {
                        if j < i { assert(url@[j] != '?'); }
                        if i < j { assert(url@[i as int] != '?'); }
                    }
                }
                Request { method: Method::Get, virtual_host: None, uri, query: qs, payload: Vec::new() }
            },
        }
    }

    /// The first request of `la`: the list of buckets.
    pub fn la(&self) -> (r: Request)
        ensures
            r.is(Method::Get, None, "/"@, no_query(), Seq::empty()),
    {
        Request { method: Method::Get, virtual_host: None, uri: "/".to_owned(), query: empty_query(), payload: Vec::new() }
    }

    /// The request of `la` for the objects of one bucket.
    pub fn la_bucket(&self, bucket: &str) -> (r: Request)
        ensures
            r.is(Method::Get, None, seq!['/'] + bucket@, no_query(), Seq::empty()),
    {
        let uri = Self::object_path(bucket, "");
        proof {
            reveal_strlit("");
            assert(seq!['/'] + bucket@ + ""@ =~= seq!['/'] + bucket@);
        }
        Request { method: Method::Get, virtual_host: None, uri, query: empty_query(), payload: Vec::new() }
    }

    /// The line that `la` prints for an object of a bucket.
    pub fn la_line(bucket: &str, key: &str) -> (r: String)
        ensures
            r@ == "S3://"@ + bucket@ + "/"@ + key@,
    {
        cat(cat(cat("S3://".to_owned(), bucket), "/"), key)
    }

    /// The lines that `la` prints for the keys of a bucket, in order.
    pub fn la_lines(bucket: &str, keys: &Vec<String>) -> (r: Vec<String>)
        ensures
            r.deep_view() == la_lines_of(bucket@, keys.deep_view()),
    {
        let mut out: Vec<String> = Vec::new();
        let mut i: usize = 0;
        while i < keys.len()
            invariant
                i <= keys.len(),
                out.deep_view() == la_lines_of(bucket@, keys.deep_view().take(i as int)),
            decreases keys.len() - i,
        {
            let line = Self::la_line(bucket, keys[i].as_str());
            let ghost prev = out.deep_view();
            out.push(line);
            assert(out.deep_view() =~= prev.push(line@));
            assert(out.deep_view() =~= la_lines_of(bucket@, keys.deep_view().take(i + 1)));
            i = i + 1;
        }
        assert(keys.deep_view().take(keys.len() as int) =~= keys.deep_view());
        out
    }

    /// The listing requests of `la` for the buckets, one per bucket, in order.
    pub fn la_requests(&self, buckets: &Vec<String>) -> (r: Vec<Request>)
        ensures
            r@.len() == buckets@.len(),
            forall|i: int| 0 <= i < buckets@.len() ==> la_request_is(#[trigger] r@[i], buckets@[i]@),
    {
        let mut out: Vec<Request> = Vec::new();
        let mut i: usize = 0;
        while i < buckets.len()
            invariant
                i <= buckets.len(),
                out@.len() == i,
                forall|j: int| 0 <= j < i ==> la_request_is(#[trigger] out@[j], buckets@[j]@),
            decreases buckets.len() - i,
        {
            out.push(self.la_bucket(buckets[i].as_str()));
            i = i + 1;
        }
        out
    }

    /// The next request of a run of `la`: the listing of the pending bucket,
    /// or nothing once every bucket is done or a request has failed.
    pub fn la_next(&self, run: &LaRun) -> (r: Option<Request>)
        ensures
            match la_pending(run@) {
                None => r is None,
                Some(b) => r is Some && la_request_is(r->Some_0, b),
            },
    {
        if run.failed || run.done >= run.buckets.len() {
            None
        } else {
            Some(self.la_bucket(run.buckets[run.done].as_str()))
        }
    }
}

/// How far `la` has come through the buckets that its first answer listed.
pub struct LaRun {
    pub buckets: Vec<String>,
    /// The number of buckets whose listing has come back.
    pub done: usize,
    /// Whether a listing request failed; `la` sends nothing after that.
    pub failed: bool,
}

/// A run of `la` as a mathematical value.
pub struct LaState {
    pub buckets: Seq<Seq<char>>,
    pub done: nat,
    pub failed: bool,
}

impl View for LaRun {
    type V = LaState;

    open spec fn view(&self) -> LaState {
        LaState { buckets: self.buckets.deep_view(), done: self.done as nat, failed: self.failed }
    }
}

/// What came back for the listing request of a bucket: its keys, in the
/// order of the answer, or a failure.
pub enum LaAnswer {
    Keys(Vec<String>),
    Failed,
}

/// A run of `la` that has not sent any bucket's listing yet.
pub open spec fn la_start(buckets: Seq<Seq<char>>) -> LaState {
    LaState { buckets, done: 0, failed: false }
}

/// The bucket whose listing `la` asks for next: the first one not yet done,
/// unless a request failed or every bucket is done.
pub open spec fn la_pending(s: LaState) -> Option<Seq<char>> {
    if !s.failed && s.done < s.buckets.len() {
        Some(s.buckets[s.done as int])
    } else {
        None
    }
}

/// The run after the answer to the pending request: one bucket more done,
/// or stopped for good at a failure. Without a pending request it stays.
pub open spec fn la_after(s: LaState, ok: bool) -> LaState {
    if la_pending(s) is Some {
        if ok {
            LaState { buckets: s.buckets, done: s.done + 1, failed: false }
        } else {
            LaState { buckets: s.buckets, done: s.done, failed: true }
        }
    } else {
        s
    }
}

/// The run after a sequence of answers, each successful or not, in order.
pub open spec fn la_after_all(s: LaState, oks: Seq<bool>) -> LaState
    decreases oks.len(),
{
    if oks.len() == 0 {
        s
    } else {
        la_after(la_after_all(s, oks.drop_last()), oks.last())
    }
}

/// The listing request of `la` for one bucket: `GET /` + bucket, no virtual
/// host, no query, no body.
pub open spec fn la_request_is(r: Request, bucket: Seq<char>) -> bool {
    r.is(Method::Get, None, seq!['/'] + bucket, no_query(), Seq::empty())
}

/// The lines that `la` prints for the keys of a bucket: `S3://bucket/key`.
pub open spec fn la_lines_of(bucket: Seq<char>, keys: Seq<Seq<char>>) -> Seq<Seq<char>> {
    keys.map_values(|k: Seq<char>| "S3://"@ + bucket + "/"@ + k)
}

impl LaRun {
    /// A run over the buckets that the first answer of `la` listed.
    pub fn new(buckets: Vec<String>) -> (r: LaRun)
        ensures
            r@ == la_start(buckets.deep_view()),
    {
        LaRun { buckets, done: 0, failed: false }
    }

    /// Takes the answer to the pending request and gives the lines to print
    /// for it: one per key for a listing, none for a failure.
    pub fn answer(&mut self, answer: LaAnswer) -> (r: Vec<String>)
        ensures
            final(self)@ == la_after(old(self)@, answer is Keys),
            r.deep_view() == match (la_pending(old(self)@), answer) {
                (Some(b), LaAnswer::Keys(keys)) => la_lines_of(b, keys.deep_view()),
                _ => Seq::<Seq<char>>::empty(),
            },
    {
        if self.failed || self.done >= self.buckets.len() {
            return Vec::new();
        }
        match answer {
            LaAnswer::Keys(keys) => {
                let lines = Handler::la_lines(self.buckets[self.done].as_str(), &keys);
                self.done = self.done + 1;
                lines
            },
            LaAnswer::Failed => {
                self.failed = true;
                Vec::new()
            },
        }
    }
}

/// Whether an `ls` argument is written as an S3 address.
pub open spec fn has_s3_scheme(b: Seq<char>) -> bool {
    starts_with(b, "s3://"@) || starts_with(b, "S3://"@)
}

/// The bucket that a `mb` or `rb` argument names: the bucket of an S3
/// address, else the word itself; refused when empty or when written as an
/// S3 address that does not match `S3_FORMAT`.
pub open spec fn bucket_of(b: Seq<char>) -> Result<Seq<char>, HandlerError> {
    if b.len() == 0 {
        Err(HandlerError::MissingBucket)
    } else if has_s3_scheme(b) {
        match s3_captures(b) {
            Some((bucket, _)) => Ok(bucket),
            None => Err(HandlerError::S3FormatError),
        }
    } else {
        Ok(b)
    }
}

/// The host and path that `ls` lists for an argument.
pub open spec fn ls_address(style: UrlStyle, b: Seq<char>) -> (Option<Seq<char>>, Seq<char>) {
    if has_s3_scheme(b) {
        let bucket = s3_captures(b)->Some_0.0;
        match style {
            UrlStyle::PATH => (None, seq!['/'] + bucket),
            UrlStyle::HOST => (Some(bucket), "/"@),
        }
    } else {
        (None, seq!['/'] + b)
    }
}

/// The path that `ls` lists with v2 signing, which has no virtual host:
/// `/` + the bucket.
pub open spec fn ls_v2_path(b: Seq<char>) -> Seq<char> {
    if has_s3_scheme(b) {
        seq!['/'] + s3_captures(b)->Some_0.0
    } else {
        seq!['/'] + b
    }
}

/// The query of `ls`: for an S3 address with an object part `/p...`, the
/// pair `prefix` = that part without its leading `/`; else nothing.
pub open spec fn ls_query(b: Seq<char>) -> Seq<(Seq<char>, Seq<char>)> {
    if has_s3_scheme(b) && s3_captures(b)->Some_0.1.len() > 1 {
        let object = s3_captures(b)->Some_0.1;
        seq![("prefix"@, object.subrange(1, object.len() as int))]
    } else {
        no_query()
    }
}

impl Listing {
    pub open spec fn is_objects(self, json_prefix: Seq<char>, xml_prefix: Seq<char>) -> bool {
        match self {
            Listing::Objects { json_prefix: j, xml_prefix: x } => j@ == json_prefix && x@ == xml_prefix,
            Listing::Buckets => false,
        }
    }
}

/// The modes that a `s3_type` command sets, by its suffix: `aws2` chooses
/// AWS with v2 signing, `aws4` and `aws` AWS with v4 signing (both with XML
/// and host style), `ceph` v4 signing with JSON and path style.
pub open spec fn s3_type_modes(cmd: Seq<char>, modes: (AuthType, Format, UrlStyle)) -> (AuthType, Format, UrlStyle) {
    if ends_with(cmd, "aws2"@) {
        (AuthType::AWS2, Format::XML, UrlStyle::HOST)
    } else if ends_with(cmd, "aws4"@) || ends_with(cmd, "aws"@) {
        (AuthType::AWS4, Format::XML, UrlStyle::HOST)
    } else if ends_with(cmd, "ceph"@) {
        (AuthType::AWS4, Format::JSON, UrlStyle::PATH)
    } else {
        modes
    }
}

/// The line that reports a `s3_type` command.
pub open spec fn s3_type_report(cmd: Seq<char>) -> Seq<char> {
    if ends_with(cmd, "aws2"@) {
        "using aws version 2 protocol, xml format, and host style url"@
    } else if ends_with(cmd, "aws4"@) || ends_with(cmd, "aws"@) {
        "using aws verion 4 protocol, xml format, and host style url"@
    } else if ends_with(cmd, "ceph"@) {
        "using aws verion 4 protocol, json format, and path style url"@
    } else {
        "usage: s3_type [ceph/aws/aws4/aws2]"@
    }
}

pub open spec fn auth_type_mode(cmd: Seq<char>, a: AuthType) -> AuthType {
    if ends_with(cmd, "aws2"@) {
        AuthType::AWS2
    } else if ends_with(cmd, "aws4"@) || ends_with(cmd, "aws"@) {
        AuthType::AWS4
    } else {
        a
    }
}

pub open spec fn format_mode(cmd: Seq<char>, f: Format) -> Format {
    if ends_with(cmd, "xml"@) {
        Format::XML
    } else if ends_with(cmd, "json"@) {
        Format::JSON
    } else {
        f
    }
}

pub open spec fn url_style_mode(cmd: Seq<char>, u: UrlStyle) -> UrlStyle {
    if ends_with(cmd, "path"@) {
        UrlStyle::PATH
    } else if ends_with(cmd, "host"@) {
        UrlStyle::HOST
    } else {
        u
    }
}

/// The bytes that `put test` uploads when no file `test` exists: `S3RS test\n`.
pub fn test_content() -> (r: Vec<u8>)
    ensures
        r@ == seq![83u8, 51, 82, 83, 32, 116, 101, 115, 116, 10],
{
    let mut v: Vec<u8> = Vec::new();
    v.push(83);
    v.push(51);
    v.push(82);
    v.push(83);
    v.push(32);
    v.push(116);
    v.push(101);
    v.push(115);
    v.push(116);
    v.push(10);
    assert(v@ =~= seq![83u8, 51, 82, 83, 32, 116, 101, 115, 116, 10]);
    v
}

impl<'a> Handler<'a> {
    pub open spec fn modes(self) -> (AuthType, Format, UrlStyle) {
        (self.auth_type, self.format, self.url_style)
    }

    pub open spec fn same_server(self, other: Self) -> bool {
        &&& self.host == other.host
        &&& self.access_key == other.access_key
        &&& self.secrete_key == other.secrete_key
        &&& self.region == other.region
    }

    /// The request of `ls` and how its answer is printed: the buckets without
    /// an argument, else the objects of the bucket that the argument names
    /// (an S3 address, addressed by the URL style, or a bare bucket name),
    /// limited to the address's object part as a key prefix.
    pub fn ls(&self, bucket: Option<&str>) -> (r: ListPlan)
        requires
            bucket matches Some(b) ==> (has_s3_scheme(b@) ==> s3_captures(b@) is Some),
        ensures
            match bucket {
                None => r.request.is(Method::Get, None, "/"@, no_query(), Seq::empty()) && r.listing
                    is Buckets,
                Some(b) => {
                    let (vh, uri) = ls_address(self.url_style, b@);
                    &&& self.shaped(r.request, Method::Get, vh, uri, ls_v2_path(b@), ls_query(b@), Seq::empty())
                    &&& r.listing.is_objects(
                        "s3:/"@ + uri + "/"@,
                        "S3://"@ + match vh {
                            Some(v) => v,
                            None => uri,
                        } + "/"@,
                    )
                },
            },
    {
        match bucket {
            None => ListPlan { request: self.la(), listing: Listing::Buckets },
            Some(b) => {
                let scheme = crate::text::str_starts_with(b, "s3://") || crate::text::str_starts_with(b, "S3://");
                let (vh, uri, v2, query): (Option<String>, String, String, Vec<(String, String)>) = if scheme {
                    let (bk, o) = match regex_s3_captures(b) {
                        Some(p) => p,
                        None => {
                            return ListPlan { request: self.la(), listing: Listing::Buckets };
                        },
                    };
                    let v2 = Self::object_path(bk.as_str(), "");
                    let query = Self::prefix_query(o.as_str());
                    match self.url_style {
                        UrlStyle::PATH => (None, Self::object_path(bk.as_str(), ""), v2, query),
                        UrlStyle::HOST => (Some(bk), "/".to_owned(), v2, query),
                    }
                } else {
                    (None, Self::object_path(b, ""), Self::object_path(b, ""), empty_query())
                };
                proof {
                    reveal_strlit("");
                    assert(""@ =~= Seq::<char>::empty());
                    if scheme {
                        assert(seq!['/'] + s3_captures(b@)->Some_0.0 + ""@ =~= seq!['/'] + s3_captures(b@)->Some_0.0);
                    } else {
                        assert(seq!['/'] + b@ + ""@ =~= seq!['/'] + b@);
                    }
                }
                let json_prefix = cat(cat("s3:/".to_owned(), uri.as_str()), "/");
                let xml_prefix = match &vh {
                    Some(v) => cat(cat("S3://".to_owned(), v.as_str()), "/"),
                    None => cat(cat("S3://".to_owned(), uri.as_str()), "/"),
                };
                let request = self.request(Method::Get, vh, uri, v2, query, Vec::new());
                ListPlan { request, listing: Listing::Objects { json_prefix, xml_prefix } }
            },
        }
    }

    /// The `prefix` pair of an object part `/p...`: `p...`, where it is not empty.
    fn prefix_query(object: &str) -> (r: Vec<(String, String)>)
        ensures
            r.deep_view() == if object@.len() > 1 {
                seq![("prefix"@, object@.subrange(1, object@.len() as int))]
            } else {
                no_query()
            },
    {
        let chars = chars_of(object);
        if chars.len() > 1 {
            let p = string_of_range(&chars, 1, chars.len());
            let mut q: Vec<(String, String)> = Vec::new();
            q.push(("prefix".to_owned(), p));
            assert(q.deep_view() =~= seq![("prefix"@, object@.subrange(1, object@.len() as int))]);
            q
        } else {
            empty_query()
        }
    }

    /// The line that a listing prints for one name of the answer.
    pub fn listing_line(&self, listing: &Listing, name: &str) -> (r: String)
        ensures
            r@ == match listing {
                Listing::Objects { json_prefix, xml_prefix } => match self.format {
                    Format::JSON => json_prefix@ + name@,
                    Format::XML => xml_prefix@ + name@ + " "@,
                },
                Listing::Buckets => "S3://"@ + name@ + " "@,
            },
    {
        match listing {
            Listing::Objects { json_prefix, xml_prefix } => match self.format {
                Format::JSON => cat(json_prefix.clone(), name),
                Format::XML => cat(cat(xml_prefix.clone(), name), " "),
            },
            Listing::Buckets => cat(cat("S3://".to_owned(), name), " "),
        }
    }

    /// The checks and the target of `put`: refused without a file or a
    /// destination or where the destination is no S3 address; the test text
    /// stands in for a missing file named `test`; an empty object path (or
    /// `/`) takes the file's final name.
    pub fn put(&self, file: &str, dest: &str, file_exists: bool) -> (r: Result<PutPlan, HandlerError>)
        ensures
            (file@.len() == 0 || dest@.len() == 0) ==> r == Err::<PutPlan, _>(HandlerError::MissingFileOrDestination),
            (file@.len() > 0 && dest@.len() > 0 && s3_captures(dest@) is None) ==> r == Err::<PutPlan, _>(HandlerError::S3FormatError),
            (file@.len() > 0 && dest@.len() > 0 && s3_captures(dest@) is Some) ==> {
                let (b, o) = s3_captures(dest@)->Some_0;
                &&& r is Ok
                &&& r->Ok_0.test_content == (!file_exists && file@ == "test"@)
                &&& r->Ok_0.uri.deep_view() == if o.len() == 0 || o == "/"@ {
                    match path_file_name(file@) {
                        Some(n) => Some(seq!['/'] + b + "/"@ + n),
                        None => None,
                    }
                } else {
                    Some(seq!['/'] + b + o)
                }
            },
    {
        if file.is_empty() || dest.is_empty() {
            return Err(HandlerError::MissingFileOrDestination);
        }
        let (b, o) = match regex_s3_captures(dest) {
            Some(p) => p,
            None => return Err(HandlerError::S3FormatError),
        };
        let test_content = !file_exists && crate::text::str_eq(file, "test");
        let whole = o.as_str().is_empty() || crate::text::str_eq(o.as_str(), "/");
        let uri = if whole {
            match file_name_of(file) {
                Some(n) => Some(cat(cat(Self::object_path(b.as_str(), ""), "/"), n.as_str())),
                None => None,
            }
        } else {
            Some(Self::object_path(b.as_str(), o.as_str()))
        };
        proof {
            reveal_strlit("");
            assert(seq!['/'] + b@ + ""@ =~= seq!['/'] + b@);
        }
        Ok(PutPlan { test_content, uri })
    }

    /// The upload request of `put` for the path and content chosen.
    pub fn put_request(&self, uri: String, payload: Vec<u8>) -> (r: Request)
        ensures
            r.is(Method::Put, None, uri@, no_query(), payload@),
    {
        Request { method: Method::Put, virtual_host: None, uri, query: empty_query(), payload }
    }

    /// Switches to the modes of an S3 flavour (`ceph`, `aws`, `aws4` or
    /// `aws2`, as a suffix) and gives the lines that report it.
    pub fn change_s3_type(&mut self, command: &str) -> (r: Vec<String>)
        ensures
            final(self).same_server(*old(self)),
            final(self).modes() == s3_type_modes(command@, old(self).modes()),
            r.deep_view() == seq!["set up s3 type as "@ + command@, s3_type_report(command@)],
    {
        let mut lines: Vec<String> = Vec::new();
        lines.push(cat("set up s3 type as ".to_owned(), command));
        let second = if crate::text::str_ends_with(command, "aws2") {
            self.auth_type = AuthType::AWS2;
            self.format = Format::XML;
            self.url_style = UrlStyle::HOST;
            "using aws version 2 protocol, xml format, and host style url".to_owned()
        } else if crate::text::str_ends_with(command, "aws4") || crate::text::str_ends_with(command, "aws") {
            self.auth_type = AuthType::AWS4;
            self.format = Format::XML;
            self.url_style = UrlStyle::HOST;
            "using aws verion 4 protocol, xml format, and host style url".to_owned()
        } else if crate::text::str_ends_with(command, "ceph") {
            self.auth_type = AuthType::AWS4;
            self.format = Format::JSON;
            self.url_style = UrlStyle::PATH;
            "using aws verion 4 protocol, json format, and path style url".to_owned()
        } else {
            "usage: s3_type [ceph/aws/aws4/aws2]".to_owned()
        };
        let ghost first = lines.deep_view();
        lines.push(second);
        assert(lines.deep_view() =~= first.push(second@));
        lines
    }

    /// Switches the signature version (`aws2`, or `aws4`/`aws`, as a suffix)
    /// and gives the line that reports it.
    pub fn change_auth_type(&mut self, command: &str) -> (r: String)
        ensures
            final(self).same_server(*old(self)),
            final(self).modes() == (auth_type_mode(command@, old(self).auth_type), old(self).format, old(self).url_style),
            r@ == if ends_with(command@, "aws2"@) {
                "using aws version 2 protocol"@
            } else if ends_with(command@, "aws4"@) || ends_with(command@, "aws"@) {
                "using aws verion 4 protocol"@
            } else {
                "usage: auth_type [aws4/aws2]"@
            },
    {
        if crate::text::str_ends_with(command, "aws2") {
            self.auth_type = AuthType::AWS2;
            "using aws version 2 protocol".to_owned()
        } else if crate::text::str_ends_with(command, "aws4") || crate::text::str_ends_with(command, "aws") {
            self.auth_type = AuthType::AWS4;
            "using aws verion 4 protocol".to_owned()
        } else {
            "usage: auth_type [aws4/aws2]".to_owned()
        }
    }

    /// Switches the response format (`xml` or `json`, as a suffix) and gives
    /// the line that reports it.
    pub fn change_format_type(&mut self, command: &str) -> (r: String)
        ensures
            final(self).same_server(*old(self)),
            final(self).modes() == (old(self).auth_type, format_mode(command@, old(self).format), old(self).url_style),
            r@ == if ends_with(command@, "xml"@) {
                "using xml format"@
            } else if ends_with(command@, "json"@) {
                "using json format"@
            } else {
                "usage: format_type [xml/json]"@
            },
    {
        if crate::text::str_ends_with(command, "xml") {
            self.format = Format::XML;
            "using xml format".to_owned()
        } else if crate::text::str_ends_with(command, "json") {
            self.format = Format::JSON;
            "using json format".to_owned()
        } else {
            "usage: format_type [xml/json]".to_owned()
        }
    }

    /// Switches the URL style (`path` or `host`, as a suffix) and gives the
    /// line that reports it.
    pub fn change_url_style(&mut self, command: &str) -> (r: String)
        ensures
            final(self).same_server(*old(self)),
            final(self).modes() == (old(self).auth_type, old(self).format, url_style_mode(command@, old(self).url_style)),
            r@ == if ends_with(command@, "path"@) {
                "using path style url"@
            } else if ends_with(command@, "host"@) {
                "using host style url"@
            } else {
                "usage: url_style [path/host]"@
            },
    {
        if crate::text::str_ends_with(command, "path") {
            self.url_style = UrlStyle::PATH;
            "using path style url".to_owned()
        } else if crate::text::str_ends_with(command, "host") {
            self.url_style = UrlStyle::HOST;
            "using host style url".to_owned()
        } else {
            "usage: url_style [path/host]".to_owned()
        }
    }
}

/// The query pairs of a request as sent: `format=json` first for a JSON handler.
fn sent_query(format: Format, qs: &Vec<(String, String)>) -> (r: Vec<(String, String)>)
    ensures
        r.deep_view() == full_query(format, qs.deep_view()),
{
    let rest = clone_pairs(qs);
    match format {
        Format::JSON => {
            let mut out: Vec<(String, String)> = Vec::new();
            out.push(pair("format", "json"));
            let mut i: usize = 0;
            while i < rest.len()
                invariant
                    i <= rest.len(),
                    rest.deep_view() == qs.deep_view(),
                    out.deep_view() == seq![("format"@, "json"@)] + rest.deep_view().take(i as int),
                decreases rest.len() - i,
            {
                let p = (rest[i].0.clone(), rest[i].1.clone());
                let ghost prev = out.deep_view();
                out.push(p);
                assert(out.deep_view() =~= prev.push(rest.deep_view()[i as int]));
                assert(out.deep_view() =~= seq![("format"@, "json"@)] + rest.deep_view().take(i + 1));
                i = i + 1;
            }
            assert(rest.deep_view().take(rest.len() as int) =~= rest.deep_view());
            out
        },
        Format::XML => rest,
    }
}

/// A list of two header pairs.
fn two_pairs(a: (String, String), b: (String, String)) -> (r: Vec<(String, String)>)
    ensures
        r.deep_view() == seq![a.deep_view(), b.deep_view()],
{
    let mut v: Vec<(String, String)> = Vec::new();
    v.push(a);
    v.push(b);
    assert(v.deep_view() =~= seq![a.deep_view(), b.deep_view()]);
    v
}

fn three_pairs(a: (String, String), b: (String, String), c: (String, String)) -> (r: Vec<(String, String)>)
    ensures
        r.deep_view() == seq![a.deep_view(), b.deep_view(), c.deep_view()],
{
    let mut v: Vec<(String, String)> = Vec::new();
    v.push(a);
    v.push(b);
    v.push(c);
    assert(v.deep_view() =~= seq![a.deep_view(), b.deep_view(), c.deep_view()]);
    v
}

fn one_pair(a: (String, String)) -> (r: Vec<(String, String)>)
    ensures
        r.deep_view() == seq![a.deep_view()],
{
    let mut v: Vec<(String, String)> = Vec::new();
    v.push(a);
    assert(v.deep_view() =~= seq![a.deep_view()]);
    v
}

fn clone_bytes(v: &Vec<u8>) -> (r: Vec<u8>)
    ensures
        r@ == v@,
{
    let r = v.clone();
    r
}

impl<'a> Handler<'a> {
    /// The address, headers and body of a request signed with AWS v2, dated
    /// `time` (RFC 2822).
    pub fn aws_v2_request(&self, req: &Request, time: &str) -> (r: SignedRequest)
        ensures
            r.method == req.method,
            r.url@ == "http://"@ + self.host@ + req.uri@ + "?"@ + canonical_query(
                full_query(self.format, req.query.deep_view()),
            ),
            r.headers.deep_view() == seq![
                ("date"@, time@),
                (
                    "authorization"@,
                    "AWS "@ + self.access_key@ + ":"@ + v2_signature(
                        self.secrete_key@,
                        v2_string_to_sign(req.method.name(), req.uri@, seq![("Date"@, time@)], req.payload@),
                    ),
                ),
            ],
            r.body@ == req.payload@,
    {
        let qs = sent_query(self.format, &req.query);
        let signed = one_pair(pair("Date", time));
        let mut url = cat(cat("http://".to_owned(), self.host), req.uri.as_str());
        url = cat(url, "?");
        let cq = aws_canonical_query_string(&qs);
        url.append(cq.as_str());
        let sts = aws_v2_string_to_sign(req.method.as_str(), req.uri.as_str(), &signed, &req.payload);
        let signature = aws_v2_sign(self.secrete_key, sts.as_str());
        let auth = cat(cat(cat("AWS ".to_owned(), self.access_key), ":"), signature.as_str());
        let headers = two_pairs(pair("date", time), ("authorization".to_owned(), auth));
        SignedRequest { method: req.method, url, headers, body: clone_bytes(&req.payload) }
    }

    /// The address, headers and body of a request signed with AWS v4, dated
    /// `time` (`%Y%m%dT%H%M%SZ`) and `date` (`%Y%m%d`).
    pub fn aws_v4_request(&self, req: &Request, time: &str, date: &str) -> (r: SignedRequest)
        requires
            time@.len() >= 8,
            vstd::utf8::is_ascii_chars(time@),
        ensures
            ({
                let host = v4_host(req.virtual_host.deep_view(), self.host@);
                let qs = full_query(self.format, req.query.deep_view());
                let signed = seq![("X-AMZ-Date"@, time@), ("Host"@, host)];
                let region = region_or_default(self.region.deep_view());
                let sts = v4_string_to_sign(req.method.name(), req.uri@, qs, signed, req.payload@, time@, region, false);
                let signature = v4_signature(self.secrete_key@, sts, date@, region, false);
                &&& r.method == req.method
                &&& r.url@ == "http://"@ + host + req.uri@ + "?"@ + canonical_query(qs)
                &&& r.headers.deep_view() == seq![
                    ("x-amz-date"@, time@),
                    ("x-amz-content-sha256"@, payload_hash(req.payload@)),
                    ("authorization"@, v4_authorization(self.access_key@, date@, region, signed_header_list(signed), signature)),
                ]
                &&& r.body@ == req.payload@
            }),
    {
        let hash = aws_hash_payload(&req.payload);
        let host = match &req.virtual_host {
            Some(v) => cat(cat(v.clone(), "."), self.host),
            None => self.host.to_owned(),
        };
        let signed = two_pairs(pair("X-AMZ-Date", time), ("Host".to_owned(), host.clone()));
        let qs = sent_query(self.format, &req.query);
        let mut url = cat(cat("http://".to_owned(), host.as_str()), req.uri.as_str());
        url = cat(url, "?");
        let cq = aws_canonical_query_string(&qs);
        url.append(cq.as_str());
        let region = match &self.region {
            Some(r) => r.clone(),
            None => "us-east-1".to_owned(),
        };
        let sts = aws_v4_string_to_sign(
            req.method.as_str(),
            req.uri.as_str(),
            &qs,
            &signed,
            &req.payload,
            time,
            region.as_str(),
        );
        let signature = aws_v4_sign(self.secrete_key, sts.as_str(), date, region.as_str());
        let names = aws_sign_headers(&signed);
        let mut auth = cat("AWS4-HMAC-SHA256 Credential=".to_owned(), self.access_key);
        auth = cat(auth, "/");
        auth.append(date);
        auth = cat(auth, "/");
        auth.append(region.as_str());
        auth = cat(auth, "/s3/aws4_request, SignedHeaders=");
        auth.append(names.as_str());
        auth = cat(auth, ", Signature=");
        auth.append(signature.as_str());
        let headers = three_pairs(
            pair("x-amz-date", time),
            ("x-amz-content-sha256".to_owned(), hash),
            ("authorization".to_owned(), auth),
        );
        SignedRequest { method: req.method, url, headers, body: clone_bytes(&req.payload) }
    }
}

/// The tagging body of `tags`.
pub fn tagging_body(tags: &Vec<(String, String)>) -> (r: String)
    ensures
        r@ == tagging_payload(tags.deep_view()),
{
    let mut s = "<Tagging><TagSet>".to_owned();
    let mut i: usize = 0;
    while i < tags.len()
        invariant
            i <= tags.len(),
            s@ == tagging_xml(tags.deep_view().take(i as int)),
        decreases tags.len() - i,
    {
        assert(tags.deep_view().take(i + 1).drop_last() =~= tags.deep_view().take(i as int));
        s = cat(s, "<Tag><Key>");
        s.append(tags[i].0.as_str());
        s = cat(s, "</Key><Value>");
        s.append(tags[i].1.as_str());
        s = cat(s, "</Value></Tag>");
        i = i + 1;
    }
    assert(tags.deep_view().take(tags.len() as int) =~= tags.deep_view());
    cat(s, "</TagSet></Tagging>")
}

/// The query pairs of a raw query string: pieces between `&`, each read as `key=value`.
pub fn query_pairs(raw: &Vec<char>) -> (r: Vec<(String, String)>)
    ensures
        r.deep_view() == split_char(raw@, '&').map_values(|q: Seq<char>| key_value(q, '=')),
{
    let pieces = split_on(raw, '&');
    let mut out: Vec<(String, String)> = Vec::new();
    let mut i: usize = 0;
    while i < pieces.len()
        invariant
            i <= pieces.len(),
            views(pieces@) == split_char(raw@, '&'),
            out.deep_view() == views(pieces@).take(i as int).map_values(|q: Seq<char>| key_value(q, '=')),
        decreases pieces.len() - i,
    {
        let kv = key_value_of(pieces[i].as_str(), '=');
        let ghost prev = out.deep_view();
        out.push(kv);
        assert(out.deep_view() =~= prev.push(kv.deep_view()));
        assert(out.deep_view() =~= views(pieces@).take(i + 1).map_values(|q: Seq<char>| key_value(q, '=')));
        i = i + 1;
    }
    assert(views(pieces@).take(pieces.len() as int) =~= views(pieces@));
    out
}

/// `key_value` of one token.
pub fn key_value_of(t: &str, sep: char) -> (r: (String, String))
    ensures
        r.deep_view() == key_value(t@, sep),
{
    let chars = chars_of(t);
    match find_char(&chars, sep) {
        None => (t.to_owned(), String::new()),
        Some(_) => {
            let pieces = split_on(&chars, sep);
            proof {
                lemma_split_char_len(t@, sep);
                assert(views(pieces@).len() == pieces@.len());
            }
            (pieces[0].clone(), pieces[1].clone())
        },
    }
}


/// The pairs of a whitespace-separated list of `key<sep>value` tokens.
pub fn word_pairs(s: &str, sep: char) -> (r: Vec<(String, String)>)
    ensures
        r.deep_view() == key_values(s@, sep),
{
    let chars = chars_of(s);
    let ws = split_words(&chars);
    let mut out: Vec<(String, String)> = Vec::new();
    let mut i: usize = 0;
    while i < ws.len()
        invariant
            i <= ws.len(),
            views(ws@) == words(s@),
            out.deep_view() == views(ws@).take(i as int).map_values(|w: Seq<char>| key_value(w, sep)),
        decreases ws.len() - i,
    {
        let kv = key_value_of(ws[i].as_str(), sep);
        let ghost prev = out.deep_view();
        out.push(kv);
        assert(out.deep_view() =~= prev.push(kv.deep_view()));
        assert(out.deep_view() =~= views(ws@).take(i + 1).map_values(|w: Seq<char>| key_value(w, sep)));
        i = i + 1;
    }
    assert(views(ws@).take(ws.len() as int) =~= views(ws@));
    out
}

} // verus!
