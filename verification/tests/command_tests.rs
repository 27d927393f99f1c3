use s3rs::handler::{AuthType as A, Format, Handler, UrlStyle as U};
use s3rs::command::{classify_line, do_command, InputLine, Action, AuthType, FormatType, S3Type, S3rsCmd, TagAction, UnknownTagAction, UrlStyle};

#[test]
fn tag_action_aliases() {
    assert_eq!(TagAction::parse("list"), Ok(TagAction::List));
    assert_eq!(TagAction::parse("ls"), Ok(TagAction::List));
    assert_eq!(TagAction::parse("add"), Ok(TagAction::Add));
    assert_eq!(TagAction::parse("put"), Ok(TagAction::Add));
    assert_eq!(TagAction::parse("del"), Ok(TagAction::Delete));
    assert_eq!(TagAction::parse("rm"), Ok(TagAction::Delete));
    assert_eq!(TagAction::parse("remove"), Err(UnknownTagAction));
    assert_eq!(TagAction::parse(""), Err(UnknownTagAction));
    assert_eq!("ls".parse::<TagAction>(), Ok(TagAction::List));
    assert_eq!(UnknownTagAction.message(), "Unknown tag action");
    assert_eq!(UnknownTagAction.usage(), "only support these tag actions: list, ls, add, put, del, rm");
}

#[test]
fn tag_action_display() {
    assert_eq!(TagAction::List.to_display_string(), "list tag");
    assert_eq!(TagAction::Add.to_display_string(), "add tag");
    assert_eq!(TagAction::Delete.to_display_string(), "delete tag");
}

#[test]
fn mode_words() {
    let s: &str = S3Type::AWS.into();
    assert_eq!(s, "aws");
    let s: &str = S3Type::CEPH.into();
    assert_eq!(s, "ceph");
    let s: &str = S3Type::AWS4.into();
    assert_eq!(s, "aws4");
    let s: &str = S3Type::AWS2.into();
    assert_eq!(s, "aws2");
    let s: &str = AuthType::AWS2.into();
    assert_eq!(s, "aws2");
    let s: &str = AuthType::AWS4.into();
    assert_eq!(s, "aws4");
    let s: &str = FormatType::XML.into();
    assert_eq!(s, "xml");
    let s: &str = FormatType::JSON.into();
    assert_eq!(s, "json");
    let s: &str = UrlStyle::Path.into();
    assert_eq!(s, "path");
    let s: &str = UrlStyle::Host.into();
    assert_eq!(s, "host");
}

#[test]
fn mode_words_switch_handler_modes() {
    let mut h = Handler { host: "h", access_key: "a", secrete_key: "s", auth_type: A::AWS2, format: Format::JSON, url_style: U::PATH, region: None };
    h.change_s3_type(S3Type::AWS.into());
    assert_eq!((h.auth_type, h.format, h.url_style), (A::AWS4, Format::XML, U::HOST));
    h.change_s3_type(S3Type::CEPH.into());
    assert_eq!((h.auth_type, h.format, h.url_style), (A::AWS4, Format::JSON, U::PATH));
    h.change_s3_type(S3Type::AWS2.into());
    assert_eq!((h.auth_type, h.format, h.url_style), (A::AWS2, Format::XML, U::HOST));
    h.change_s3_type(S3Type::AWS4.into());
    assert_eq!((h.auth_type, h.format, h.url_style), (A::AWS4, Format::XML, U::HOST));
    h.change_auth_type(AuthType::AWS2.into());
    assert_eq!(h.auth_type, A::AWS2);
    h.change_auth_type(AuthType::AWS4.into());
    assert_eq!(h.auth_type, A::AWS4);
    h.change_format_type(FormatType::JSON.into());
    assert_eq!(h.format, Format::JSON);
    h.change_format_type(FormatType::XML.into());
    assert_eq!(h.format, Format::XML);
    h.change_url_style(UrlStyle::Host.into());
    assert_eq!(h.url_style, U::HOST);
    h.change_url_style(UrlStyle::Path.into());
    assert_eq!(h.url_style, U::PATH);
}

fn texts(v: &[(String, String)]) -> Vec<(&str, &str)> {
    v.iter().map(|(a, b)| (a.as_str(), b.as_str())).collect()
}

#[test]
fn simple_commands_become_one_action() {
    assert!(matches!(do_command("aws", Some(S3rsCmd::ListAll)).as_slice(), [Action::ListAll]));
    match do_command("aws", Some(S3rsCmd::List { uri: Some("s3://b".to_string()) })).as_slice() {
        [Action::List(Some(u))] => assert_eq!(u, "s3://b"),
        _ => panic!("unexpected plan"),
    }
    match do_command("aws", Some(S3rsCmd::Put { file: "f".to_string(), uri: "s3://b/o".to_string() })).as_slice() {
        [Action::Put { file, uri }] => assert_eq!((file.as_str(), uri.as_str()), ("f", "s3://b/o")),
        _ => panic!("unexpected plan"),
    }
    match do_command("aws", Some(S3rsCmd::CreateBucket { bucket: "nb".to_string() })).as_slice() {
        [Action::CreateBucket(b)] => assert_eq!(b, "nb"),
        _ => panic!("unexpected plan"),
    }
    match do_command("aws", Some(S3rsCmd::Query { url: "/b?acl".to_string() })).as_slice() {
        [Action::UrlCommand { url, report }] => assert_eq!((url.as_str(), *report), ("/b?acl", true)),
        _ => panic!("unexpected plan"),
    }
}

#[test]
fn detail_plans_all_or_one_listing() {
    assert!(matches!(do_command("aws", Some(S3rsCmd::Detail { uri: None })).as_slice(), [Action::DetailAll]));
    match do_command("aws", Some(S3rsCmd::Detail { uri: Some("s3://b/p".to_string()) })).as_slice() {
        [Action::DetailOf(u)] => assert_eq!(u, "s3://b/p"),
        _ => panic!("unexpected plan"),
    }
}

fn typed(line: &str) -> String {
    match classify_line(line) {
        InputLine::Logout => "logout".to_string(),
        InputLine::Exit => "exit".to_string(),
        InputLine::Query(u) => format!("query {}", u),
        InputLine::Words(w) => format!("words {}", w.join("|")),
    }
}

#[test]
fn typed_lines_are_classified() {
    assert_eq!(typed("logout"), "logout");
    assert_eq!(typed("logout now"), "logout");
    assert_eq!(typed("exit"), "exit");
    assert_eq!(typed("quit"), "exit");
    assert_eq!(typed("/b?acl"), "query /b?acl");
    assert_eq!(typed("  ls   s3://b "), "words ls|s3://b");
    assert_eq!(typed(""), "words ");
}

#[test]
fn nothing_for_quit_logout_and_none() {
    assert!(do_command("aws", None).is_empty());
    assert!(do_command("aws", Some(S3rsCmd::Quit)).is_empty());
    assert!(do_command("aws", Some(S3rsCmd::Logout)).is_empty());
}

#[test]
fn delete_markers_become_headers() {
    for cmd in [
        S3rsCmd::Del { uri: "s3://b/o".to_string(), marker: Some("delete-marker:true flag".to_string()) },
        S3rsCmd::Rm { uri: "s3://b/o".to_string(), marker: Some("delete-marker:true flag".to_string()) },
    ] {
        match do_command("aws", Some(cmd)).as_slice() {
            [Action::DeleteWithHeaders { uri, headers }] => {
                assert_eq!(uri, "s3://b/o");
                assert_eq!(texts(headers), vec![("delete-marker", "true"), ("flag", "")]);
            },
            _ => panic!("unexpected plan"),
        }
    }
    match do_command("aws", Some(S3rsCmd::Del { uri: "s3://b/o".to_string(), marker: None })).as_slice() {
        [Action::DeleteWithHeaders { headers, .. }] => assert!(headers.is_empty()),
        _ => panic!("unexpected plan"),
    }
}

#[test]
fn tag_and_usage_pairs() {
    match do_command("aws", Some(S3rsCmd::Tag { action: TagAction::Add, uri: "s3://b/o".to_string(), tags: Some("k1=v1 k2=v2".to_string()) })).as_slice() {
        [Action::AddTag { uri, tags }] => {
            assert_eq!(uri, "s3://b/o");
            assert_eq!(texts(tags), vec![("k1", "v1"), ("k2", "v2")]);
        },
        _ => panic!("unexpected plan"),
    }
    assert!(matches!(
        do_command("aws", Some(S3rsCmd::Tag { action: TagAction::List, uri: "u".to_string(), tags: None })).as_slice(),
        [Action::ListTag(_)]
    ));
    assert!(matches!(
        do_command("aws", Some(S3rsCmd::Tag { action: TagAction::Delete, uri: "u".to_string(), tags: None })).as_slice(),
        [Action::DeleteTag(_)]
    ));
    match do_command("ceph", Some(S3rsCmd::Usage { bucket: "s3://b".to_string(), options: Some("start=1 end".to_string()) })).as_slice() {
        [Action::Usage { bucket, options }] => {
            assert_eq!(bucket, "s3://b");
            assert_eq!(texts(options), vec![("start", "1"), ("end", "")]);
        },
        _ => panic!("unexpected plan"),
    }
}

#[test]
fn mode_commands_plan_mode_changes() {
    assert!(matches!(do_command("aws", Some(S3rsCmd::S3Type(S3Type::CEPH))).as_slice(), [Action::ChangeS3Type("ceph")]));
    assert!(matches!(do_command("aws", Some(S3rsCmd::AuthType(AuthType::AWS2))).as_slice(), [Action::ChangeAuthType("aws2")]));
    assert!(matches!(do_command("aws", Some(S3rsCmd::S3Type(S3Type::AWS2))).as_slice(), [Action::ChangeS3Type("aws2")]));
    assert!(matches!(do_command("aws", Some(S3rsCmd::Format(FormatType::XML))).as_slice(), [Action::ChangeFormatType("xml")]));
    assert!(matches!(do_command("aws", Some(S3rsCmd::Format(FormatType::JSON))).as_slice(), [Action::ChangeFormatType("json")]));
    assert!(matches!(do_command("aws", Some(S3rsCmd::UrlStyle(UrlStyle::Host))).as_slice(), [Action::ChangeUrlStyle("host")]));
    assert!(matches!(do_command("aws", Some(S3rsCmd::UrlStyle(UrlStyle::Path))).as_slice(), [Action::ChangeUrlStyle("path")]));
    match do_command("aws", Some(S3rsCmd::Log("debug".to_string()))).as_slice() {
        [Action::ChangeLogType(t)] => assert_eq!(t, "debug"),
        _ => panic!("unexpected plan"),
    }
}

fn info_lines(plan: &[Action]) -> Vec<String> {
    plan.iter()
        .map(|a| match a {
            Action::Heading { text, gap } => format!("{}{}", if *gap { "\n" } else { "" }, text),
            Action::UrlCommand { url, report } => {
                assert!(!report);
                url.clone()
            },
            _ => panic!("unexpected step"),
        })
        .collect()
}

#[test]
fn info_for_aws_and_ceph() {
    let plan = do_command("aws", Some(S3rsCmd::Info { bucket: "s3://bk/x".to_string() }));
    assert_eq!(
        info_lines(&plan),
        vec!["location:", "/bk?location", "\nacl:", "/bk?acl", "\nversioning:", "/bk?versioning"]
    );
    let plan = do_command("ceph", Some(S3rsCmd::Info { bucket: "bk".to_string() }));
    assert_eq!(
        info_lines(&plan),
        vec![
            "location:", "/bk?location", "\nacl:", "/bk?acl", "\nversioning:", "/bk?versioning",
            "\nversion:", "/bk?version", "\nuploads:", "/bk?uploads"
        ]
    );
}
