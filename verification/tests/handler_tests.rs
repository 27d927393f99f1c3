use s3rs::handler::{
    tagging_body, test_content, word_pairs, AuthType, Format, Handler, HandlerError, Listing, Method,
    LaAnswer, LaRun, Request, UrlStyle,
};

fn handler(auth: AuthType, format: Format, style: UrlStyle) -> Handler<'static> {
    Handler {
        host: "s3.example.com",
        access_key: "AKEY",
        secrete_key: "SKEY",
        auth_type: auth,
        format,
        url_style: style,
        region: None,
    }
}

fn shape(r: &Request) -> (Method, Option<String>, String, Vec<(String, String)>, Vec<u8>) {
    (r.method, r.virtual_host.clone(), r.uri.clone(), r.query.clone(), r.payload.clone())
}

fn err_of(r: Result<Request, HandlerError>) -> HandlerError {
    match r {
        Err(e) => e,
        Ok(_) => panic!("expected a refusal"),
    }
}

#[test]
fn get_path_style_v4() {
    let h = handler(AuthType::AWS4, Format::XML, UrlStyle::PATH);
    let r = h.get("s3://bk/obj.txt").unwrap();
    assert_eq!(shape(&r), (Method::Get, None, "/bk/obj.txt".to_string(), vec![], vec![]));
}

#[test]
fn get_host_style_v4() {
    let h = handler(AuthType::AWS4, Format::XML, UrlStyle::HOST);
    let r = h.get("s3://bk/obj.txt").unwrap();
    assert_eq!(shape(&r), (Method::Get, Some("bk".to_string()), "/obj.txt".to_string(), vec![], vec![]));
}

#[test]
fn get_v2_always_path_style() {
    let h = handler(AuthType::AWS2, Format::XML, UrlStyle::HOST);
    let r = h.get("s3://bk/obj.txt").unwrap();
    assert_eq!(shape(&r), (Method::Get, None, "/bk/obj.txt".to_string(), vec![], vec![]));
}

#[test]
fn get_refusals() {
    let h = handler(AuthType::AWS4, Format::XML, UrlStyle::PATH);
    assert_eq!(err_of(h.get("")), HandlerError::MissingSource);
    assert_eq!(err_of(h.get("bk/obj")), HandlerError::S3FormatError);
    assert_eq!(err_of(h.get("s3://bk")), HandlerError::MissingObject);
    assert_eq!(HandlerError::MissingSource.message(), "Please specify the object");
    assert_eq!(HandlerError::MissingObject.message(), "Please specific the object");
    assert_eq!(HandlerError::S3FormatError.message(), "S3 object format error.");
}

#[test]
fn download_file_names() {
    assert_eq!(Handler::download_file("s3://b/dir/obj", None), Some("obj".to_string()));
    assert_eq!(Handler::download_file("s3://b/dir/obj", Some("out")), Some("out".to_string()));
    assert_eq!(Handler::download_file("s3://b/..", None), None);
}

#[test]
fn cat_refusals_and_target() {
    let h = handler(AuthType::AWS4, Format::JSON, UrlStyle::PATH);
    assert_eq!(err_of(h.cat("")), HandlerError::MissingTarget);
    assert_eq!(HandlerError::MissingTarget.message(), "please specific the object");
    let r = h.cat("s3://b/k").unwrap();
    assert_eq!(shape(&r), (Method::Get, None, "/b/k".to_string(), vec![], vec![]));
}

#[test]
fn del_v4_and_v2() {
    let h4 = handler(AuthType::AWS4, Format::XML, UrlStyle::HOST);
    let r = h4.del("s3://b/k").unwrap();
    assert_eq!(shape(&r), (Method::Delete, Some("b".to_string()), "/k".to_string(), vec![], vec![]));
    let h2 = handler(AuthType::AWS2, Format::XML, UrlStyle::HOST);
    let r = h2.del("s3://b/k").unwrap();
    assert_eq!(shape(&r), (Method::Delete, None, "/b/k".to_string(), vec![], vec![]));
    assert_eq!(err_of(h2.del("s3://b")), HandlerError::MissingObject);
    let hp = handler(AuthType::AWS4, Format::JSON, UrlStyle::PATH);
    let r = hp.del("s3://b/dir/k").unwrap();
    assert_eq!(shape(&r), (Method::Delete, None, "/b/dir/k".to_string(), vec![], vec![]));
}

#[test]
fn mb_rb_requests() {
    let h = handler(AuthType::AWS2, Format::XML, UrlStyle::PATH);
    assert_eq!(err_of(h.mb("")), HandlerError::MissingBucket);
    assert_eq!(err_of(h.rb("")), HandlerError::MissingBucket);
    assert_eq!(HandlerError::MissingBucket.message(), "please specific the bucket name");
    assert_eq!(shape(&h.mb("new").unwrap()), (Method::Put, None, "/new".to_string(), vec![], vec![]));
    assert_eq!(shape(&h.rb("old").unwrap()), (Method::Delete, None, "/old".to_string(), vec![], vec![]));
}

#[test]
fn mb_rb_read_s3_addresses() {
    let h = handler(AuthType::AWS4, Format::XML, UrlStyle::HOST);
    assert_eq!(shape(&h.mb("s3://nb").unwrap()), (Method::Put, None, "/nb".to_string(), vec![], vec![]));
    assert_eq!(shape(&h.rb("S3://ob").unwrap()), (Method::Delete, None, "/ob".to_string(), vec![], vec![]));
    assert_eq!(shape(&h.mb("s3://nb/extra").unwrap()).2, "/nb");
    assert_eq!(err_of(h.mb("s3://")), HandlerError::S3FormatError);
    assert_eq!(err_of(h.rb("s3://!")), HandlerError::S3FormatError);
}

#[test]
fn tag_request_payload() {
    let h = handler(AuthType::AWS4, Format::XML, UrlStyle::PATH);
    let tags = vec![("k".to_string(), "v".to_string()), ("a".to_string(), "".to_string())];
    let r = h.tag("s3://b/o", &tags).unwrap();
    let body = "<Tagging><TagSet><Tag><Key>k</Key><Value>v</Value></Tag><Tag><Key>a</Key><Value></Value></Tag></TagSet></Tagging>";
    assert_eq!(
        shape(&r),
        (Method::Put, None, "/b/o".to_string(), vec![("tagging".to_string(), "".to_string())], body.as_bytes().to_vec())
    );
    assert_eq!(tagging_body(&vec![]), "<Tagging><TagSet></TagSet></Tagging>");
    assert_eq!(err_of(h.tag("", &tags)), HandlerError::MissingTarget);
}

#[test]
fn url_command_query_pairs() {
    let h = handler(AuthType::AWS4, Format::XML, UrlStyle::PATH);
    let r = h.url_command("/b?a=1&b=2=3&c");
    assert_eq!(
        shape(&r),
        (
            Method::Get,
            None,
            "/b".to_string(),
            vec![
                ("a".to_string(), "1".to_string()),
                ("b".to_string(), "2".to_string()),
                ("c".to_string(), "".to_string())
            ],
            vec![]
        )
    );
    assert_eq!(shape(&h.url_command("/b")), (Method::Get, None, "/b".to_string(), vec![], vec![]));
    assert_eq!(
        shape(&h.url_command("/b?")),
        (Method::Get, None, "/b".to_string(), vec![("".to_string(), "".to_string())], vec![])
    );
    assert_eq!(shape(&h.url_command("/b?acl")).3, vec![("acl".to_string(), "".to_string())]);
    assert_eq!(
        shape(&h.url_command("/b?x=1&&y")).3,
        vec![("x".to_string(), "1".to_string()), ("".to_string(), "".to_string()), ("y".to_string(), "".to_string())]
    );
    assert_eq!(shape(&h.url_command("/a?b?c")).2, "/a");
    assert_eq!(shape(&h.url_command("/a?b?c")).3, vec![("b?c".to_string(), "".to_string())]);
}

fn prefixes(l: &Listing) -> Option<(String, String)> {
    match l {
        Listing::Objects { json_prefix, xml_prefix } => Some((json_prefix.clone(), xml_prefix.clone())),
        Listing::Buckets => None,
    }
}

#[test]
fn ls_without_argument_lists_buckets() {
    let h = handler(AuthType::AWS4, Format::XML, UrlStyle::PATH);
    let p = h.ls(None);
    assert_eq!(shape(&p.request), (Method::Get, None, "/".to_string(), vec![], vec![]));
    assert_eq!(prefixes(&p.listing), None);
    assert_eq!(h.listing_line(&p.listing, "bk"), "S3://bk ");
}

#[test]
fn ls_path_and_host_style() {
    let hp = handler(AuthType::AWS4, Format::JSON, UrlStyle::PATH);
    let p = hp.ls(Some("s3://bk/pre"));
    assert_eq!(shape(&p.request), (Method::Get, None, "/bk".to_string(), pairs(&[("prefix", "pre")]), vec![]));
    assert_eq!(prefixes(&p.listing), Some(("s3://bk/".to_string(), "S3:///bk/".to_string())));
    assert_eq!(hp.listing_line(&p.listing, "k"), "s3://bk/k");
    let hh = handler(AuthType::AWS4, Format::XML, UrlStyle::HOST);
    let p = hh.ls(Some("S3://bk"));
    assert_eq!(shape(&p.request), (Method::Get, Some("bk".to_string()), "/".to_string(), vec![], vec![]));
    assert_eq!(hh.listing_line(&p.listing, "k"), "S3://bk/k ");
    let p = hh.ls(Some("plain"));
    assert_eq!(shape(&p.request), (Method::Get, None, "/plain".to_string(), vec![], vec![]));
    let p = hh.ls(Some("s3://bk/dir/sub"));
    assert_eq!(shape(&p.request), (Method::Get, Some("bk".to_string()), "/".to_string(), pairs(&[("prefix", "dir/sub")]), vec![]));
    let p = hh.ls(Some("s3://bk/"));
    assert_eq!(shape(&p.request).3, vec![]);
}

#[test]
fn ls_v2_lists_the_bucket_path() {
    let h = handler(AuthType::AWS2, Format::XML, UrlStyle::HOST);
    let p = h.ls(Some("s3://bk"));
    assert_eq!(shape(&p.request), (Method::Get, None, "/bk".to_string(), vec![], vec![]));
    assert_eq!(h.listing_line(&p.listing, "k"), "S3://bk/k ");
    let p = h.ls(Some("s3://bk/pre"));
    assert_eq!(shape(&p.request), (Method::Get, None, "/bk".to_string(), pairs(&[("prefix", "pre")]), vec![]));
}

#[test]
fn la_requests_and_lines() {
    let h = handler(AuthType::AWS2, Format::XML, UrlStyle::PATH);
    assert_eq!(shape(&h.la()), (Method::Get, None, "/".to_string(), vec![], vec![]));
    assert_eq!(shape(&h.la_bucket("bk")), (Method::Get, None, "/bk".to_string(), vec![], vec![]));
    assert_eq!(Handler::la_line("bk", "a/b"), "S3://bk/a/b");
    let buckets = vec!["b1".to_string(), "b2".to_string()];
    let reqs = h.la_requests(&buckets);
    assert_eq!(reqs.iter().map(shape).collect::<Vec<_>>(), vec![
        (Method::Get, None, "/b1".to_string(), vec![], vec![]),
        (Method::Get, None, "/b2".to_string(), vec![], vec![]),
    ]);
    let keys = vec!["k1".to_string(), "d/k2".to_string()];
    assert_eq!(Handler::la_lines("b1", &keys), vec!["S3://b1/k1".to_string(), "S3://b1/d/k2".to_string()]);
    assert!(Handler::la_lines("b1", &vec![]).is_empty());
}

#[test]
fn la_run_walks_buckets_in_order() {
    let h = handler(AuthType::AWS4, Format::XML, UrlStyle::HOST);
    let mut run = LaRun::new(vec!["b1".to_string(), "b2".to_string()]);
    assert_eq!(shape(&h.la_next(&run).unwrap()), (Method::Get, None, "/b1".to_string(), vec![], vec![]));
    let lines = run.answer(LaAnswer::Keys(vec!["k1".to_string()]));
    assert_eq!(lines, vec!["S3://b1/k1".to_string()]);
    assert_eq!(shape(&h.la_next(&run).unwrap()), (Method::Get, None, "/b2".to_string(), vec![], vec![]));
    let lines = run.answer(LaAnswer::Keys(vec![]));
    assert!(lines.is_empty());
    assert!(h.la_next(&run).is_none());
    assert_eq!(run.done, 2);
    assert!(run.answer(LaAnswer::Keys(vec!["late".to_string()])).is_empty());
}

#[test]
fn la_run_stops_at_first_failure() {
    let h = handler(AuthType::AWS2, Format::JSON, UrlStyle::PATH);
    let mut run = LaRun::new(vec!["b1".to_string(), "b2".to_string(), "b3".to_string()]);
    run.answer(LaAnswer::Keys(vec!["k".to_string()]));
    assert!(run.answer(LaAnswer::Failed).is_empty());
    assert!(run.failed);
    assert!(h.la_next(&run).is_none());
    assert!(run.answer(LaAnswer::Keys(vec!["k".to_string()])).is_empty());
    assert!(h.la_next(&run).is_none());
    assert!(h.la_next(&LaRun::new(vec![])).is_none());
}

#[test]
fn put_checks_and_targets() {
    let h = handler(AuthType::AWS4, Format::XML, UrlStyle::PATH);
    assert_eq!(h.put("", "s3://b", true).err(), Some(HandlerError::MissingFileOrDestination));
    assert_eq!(h.put("f", "", true).err(), Some(HandlerError::MissingFileOrDestination));
    assert_eq!(h.put("f", "bad", true).err(), Some(HandlerError::S3FormatError));
    let p = h.put("test", "s3://b/o", false).unwrap();
    assert!(p.test_content);
    assert_eq!(p.uri, Some("/b/o".to_string()));
    let p = h.put("test", "s3://b/o", true).unwrap();
    assert!(!p.test_content);
    let p = h.put("dir/file.txt", "s3://b", true).unwrap();
    assert_eq!(p.uri, Some("/b/file.txt".to_string()));
    let p = h.put("dir/file.txt", "s3://b/", true).unwrap();
    assert_eq!(p.uri, Some("/b/file.txt".to_string()));
    let p = h.put("..", "s3://b", true).unwrap();
    assert_eq!(p.uri, None);
    assert_eq!(HandlerError::MissingFileOrDestination.message(), "please specify the file and the destiney");
    assert_eq!(test_content(), b"S3RS test\n".to_vec());
    let r = h.put_request("/b/o".to_string(), vec![1, 2]);
    assert_eq!(shape(&r), (Method::Put, None, "/b/o".to_string(), vec![], vec![1, 2]));
}

#[test]
fn change_s3_type_modes() {
    let mut h = handler(AuthType::AWS2, Format::JSON, UrlStyle::PATH);
    let lines = h.change_s3_type("aws");
    assert_eq!(lines, vec!["set up s3 type as aws".to_string(), "using aws verion 4 protocol, xml format, and host style url".to_string()]);
    assert_eq!((h.auth_type, h.format, h.url_style), (AuthType::AWS4, Format::XML, UrlStyle::HOST));
    let lines = h.change_s3_type("s3_type ceph");
    assert_eq!(lines[1], "using aws verion 4 protocol, json format, and path style url");
    assert_eq!((h.auth_type, h.format, h.url_style), (AuthType::AWS4, Format::JSON, UrlStyle::PATH));
    let lines = h.change_s3_type("minio");
    assert_eq!(lines[1], "usage: s3_type [ceph/aws/aws4/aws2]");
    assert_eq!((h.auth_type, h.format, h.url_style), (AuthType::AWS4, Format::JSON, UrlStyle::PATH));
    let lines = h.change_s3_type("aws2");
    assert_eq!(lines, vec!["set up s3 type as aws2".to_string(), "using aws version 2 protocol, xml format, and host style url".to_string()]);
    assert_eq!((h.auth_type, h.format, h.url_style), (AuthType::AWS2, Format::XML, UrlStyle::HOST));
    let lines = h.change_s3_type("aws4");
    assert_eq!(lines[1], "using aws verion 4 protocol, xml format, and host style url");
    assert_eq!((h.auth_type, h.format, h.url_style), (AuthType::AWS4, Format::XML, UrlStyle::HOST));
}

#[test]
fn change_auth_format_style() {
    let mut h = handler(AuthType::AWS4, Format::XML, UrlStyle::PATH);
    assert_eq!(h.change_auth_type("aws2"), "using aws version 2 protocol");
    assert_eq!(h.auth_type, AuthType::AWS2);
    assert_eq!(h.change_auth_type("aws"), "using aws verion 4 protocol");
    assert_eq!(h.auth_type, AuthType::AWS4);
    assert_eq!(h.change_auth_type("x"), "usage: auth_type [aws4/aws2]");
    assert_eq!(h.change_format_type("json"), "using json format");
    assert_eq!(h.format, Format::JSON);
    assert_eq!(h.change_format_type("aws2"), "usage: format_type [xml/json]");
    assert_eq!(h.format, Format::JSON);
    assert_eq!(h.change_url_style("host"), "using host style url");
    assert_eq!(h.url_style, UrlStyle::HOST);
    assert_eq!(h.change_url_style("url_style path"), "using path style url");
    assert_eq!(h.change_url_style("nope"), "usage: url_style [path/host]");
    assert_eq!(h.url_style, UrlStyle::PATH);
}

#[test]
fn mode_commands_idempotent_instance() {
    let mut h = handler(AuthType::AWS2, Format::JSON, UrlStyle::HOST);
    h.change_s3_type("aws");
    let once = (h.auth_type, h.format, h.url_style);
    h.change_s3_type("aws");
    assert_eq!((h.auth_type, h.format, h.url_style), once);
}

fn pairs(v: &[(&str, &str)]) -> Vec<(String, String)> {
    v.iter().map(|(a, b)| (a.to_string(), b.to_string())).collect()
}

#[test]
fn word_pairs_splits_tokens() {
    assert_eq!(word_pairs("  k1=v1 k2  k3=a=b ", '='), pairs(&[("k1", "v1"), ("k2", ""), ("k3", "a")]));
    assert_eq!(word_pairs("", ':'), Vec::<(String, String)>::new());
    assert_eq!(word_pairs("delete-marker:true\tsecure-delete:true", ':'), pairs(&[("delete-marker", "true"), ("secure-delete", "true")]));
}

#[test]
fn v2_signed_request_matches_s3handler() {
    let h = handler(AuthType::AWS2, Format::JSON, UrlStyle::PATH);
    let req = h.url_command("/b?acl");
    let time = "Tue, 01 Jan 2030 00:00:00 +0000";
    let s = h.aws_v2_request(&req, time);
    let mut qs = vec![("format", "json"), ("acl", "")];
    let cq = s3handler::blocking::aws::canonical_query_string(&mut qs);
    assert_eq!(s.url, format!("http://s3.example.com/b?{}", cq));
    assert_ne!(cq, "");
    let mut hd = vec![("Date", time)];
    let sts = s3handler::blocking::aws::aws_s3_v2_get_string_to_signed("GET", "/b", &mut hd, &[]);
    let sig = s3handler::blocking::aws::aws_s3_v2_sign("SKEY", &sts);
    assert_ne!(sig, sts);
    assert_eq!(
        s.headers,
        pairs(&[("date", time), ("authorization", &format!("AWS AKEY:{}", sig))])
    );
    assert_eq!(s.method, Method::Get);
    assert_eq!(s.body, Vec::<u8>::new());
}

#[test]
fn v4_signed_request_matches_s3handler() {
    let mut h = handler(AuthType::AWS4, Format::XML, UrlStyle::HOST);
    h.region = Some("eu-west-1".to_string());
    let req = h.get("s3://bk/k").unwrap();
    let time = "20300101T000000Z";
    let date = "20300101";
    let s = h.aws_v4_request(&req, time, date);
    assert_eq!(s.url, "http://bk.s3.example.com/k?");
    let empty_hash = "e3b3c44298fc1c149afbf4c8996fb92427ae41e4649b934ca495991b7852b855".replace("e3b3", "e3b0");
    let mut hd = vec![("X-AMZ-Date", time), ("Host", "bk.s3.example.com")];
    let mut qs: Vec<(&str, &str)> = vec![];
    let sts = s3handler::blocking::aws::aws_v4_get_string_to_signed(
        "GET", "/k", &mut qs, &mut hd, &[], time.to_string(), "eu-west-1", false,
    );
    let sig = s3handler::blocking::aws::aws_v4_sign("SKEY", &sts, date.to_string(), "eu-west-1", false);
    let auth = format!(
        "AWS4-HMAC-SHA256 Credential=AKEY/{}/eu-west-1/s3/aws4_request, SignedHeaders=host;x-amz-date, Signature={}",
        date, sig
    );
    assert_eq!(
        s.headers,
        pairs(&[("x-amz-date", time), ("x-amz-content-sha256", &empty_hash), ("authorization", &auth)])
    );
}

#[test]
fn v4_default_region() {
    let h = handler(AuthType::AWS4, Format::XML, UrlStyle::PATH);
    let req = h.mb("nb").unwrap();
    let s = h.aws_v4_request(&req, "20300101T000000Z", "20300101");
    assert_eq!(s.url, "http://s3.example.com/nb?");
    assert!(s.headers[2].1.starts_with("AWS4-HMAC-SHA256 Credential=AKEY/20300101/us-east-1/s3/aws4_request, SignedHeaders=host;x-amz-date, Signature="));
    assert_eq!(s.method, Method::Put);
}

#[test]
fn method_names() {
    assert_eq!(Method::Get.as_str(), "GET");
    assert_eq!(Method::Put.as_str(), "PUT");
    assert_eq!(Method::Delete.as_str(), "DELETE");
}
