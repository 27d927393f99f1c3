use s3rs::choice::{menu_line, parse_choice};
use s3rs::config::{Config, CredentialConfig};
use s3rs::detail::{detail_header, detail_line, detail_lines, ObjectDetail};
use s3rs::logger::{change_log_type, LogLevel};

#[test]
fn log_levels() {
    assert_eq!(change_log_type("trace"), (Some(LogLevel::Trace), "set up log level trace".to_string()));
    assert_eq!(change_log_type("log debug"), (Some(LogLevel::Debug), "set up log level debug".to_string()));
    assert_eq!(change_log_type("info"), (Some(LogLevel::Info), "set up log level info".to_string()));
    assert_eq!(change_log_type("error"), (Some(LogLevel::Error), "set up log level error".to_string()));
    assert_eq!(change_log_type("warn"), (None, "usage: log [trace/debug/info/error]".to_string()));
}

fn cred(host: &str, user: Option<&str>, region: Option<&str>, s3_type: Option<&str>) -> CredentialConfig {
    CredentialConfig {
        host: host.to_string(),
        user: user.map(|s| s.to_string()),
        access_key: "AK".to_string(),
        secret_key: "SK".to_string(),
        region: region.map(|s| s.to_string()),
        s3_type: s3_type.map(|s| s.to_string()),
        secure: None,
    }
}

#[test]
fn selections_show_each_credential() {
    let c = Config { credential: Some(vec![cred("h1", None, None, None), cred("h2", Some("me"), Some("eu"), Some("ceph"))]) };
    assert_eq!(
        c.gen_selections(),
        vec!["[aws] h1 (us-east-1) user (AK)".to_string(), "[ceph] h2 (eu) me (AK)".to_string()]
    );
    assert_eq!(Config { credential: Some(vec![]) }.gen_selections(), Vec::<String>::new());
}

#[test]
fn choice_parsing() {
    assert_eq!(parse_choice("2\n", 1, 3), Some(2));
    assert_eq!(parse_choice("+3", 1, 3), Some(3));
    assert_eq!(parse_choice("0", 1, 3), None);
    assert_eq!(parse_choice("4", 1, 3), None);
    assert_eq!(parse_choice("3\r\n", 1, 3), None);
    assert_eq!(parse_choice(" 1", 1, 3), None);
    assert_eq!(parse_choice("", 1, 3), None);
    assert_eq!(parse_choice("+", 1, 3), None);
    assert_eq!(parse_choice("-1", 1, 3), None);
    assert_eq!(parse_choice("99999999999999999999999", 1, usize::MAX), None);
    assert_eq!(parse_choice("18446744073709551615", 1, usize::MAX), Some(18446744073709551615));
    assert_eq!(parse_choice("1\n8\n", 1, 20), Some(18));
}

#[test]
fn menu_lines() {
    assert_eq!(menu_line(2, 3, "a\nb"), "03. ab\n");
    assert_eq!(menu_line(1, 12, "x"), "12. x\n");
    assert_eq!(menu_line(0, 0, ""), "0. \n");
}

#[test]
fn menu_number_is_chosen_back() {
    let line = menu_line(3, 7, "item");
    let number = line.split('.').next().unwrap();
    assert_eq!(number, "007");
    assert_eq!(parse_choice(number, 1, 10), Some(7));
}

#[test]
fn detail_rows() {
    assert_eq!(detail_header(), "STORAGE CLASS\tMODIFIED TIME\t\t\tETAG\t\t\t\t\tSIZE\tKEY");
    let full = ObjectDetail {
        storage_class: Some("STANDARD".to_string()),
        mtime: Some("2020-01-01".to_string()),
        etag: Some("\"e\"".to_string()),
        size: Some(1000),
        name: "s3://b/k".to_string(),
    };
    let size = humansize::make_format_i(humansize::DECIMAL)(1000usize);
    assert_ne!(size, "1000");
    assert_eq!(detail_line(&full), format!("STANDARD\t2020-01-01\t\"e\"\t{}\ts3://b/k", size));
    let bare = ObjectDetail { storage_class: None, mtime: None, etag: None, size: None, name: "s3://b".to_string() };
    assert_eq!(detail_line(&bare), format!("{}\t{}\t{}\t\ts3://b", " ".repeat(8), " ".repeat(24), " ".repeat(33)));
}

#[test]
fn detail_listing_heading_then_rows() {
    let a = ObjectDetail { storage_class: Some("GLACIER".to_string()), mtime: None, etag: None, size: None, name: "s3://b/a".to_string() };
    let b = ObjectDetail { storage_class: None, mtime: None, etag: None, size: None, name: "s3://b/b".to_string() };
    let expected = vec![detail_header().to_string(), detail_line(&a), detail_line(&b)];
    assert_eq!(detail_lines(&vec![a, b]), expected);
    assert_eq!(detail_lines(&vec![]), vec![detail_header().to_string()]);
}
