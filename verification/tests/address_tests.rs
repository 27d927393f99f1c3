use s3rs::patterns::{json_listing_keys, s3_address};

fn parts(s: &str) -> Option<(String, String)> {
    s3_address(s).map(|a| (a.bucket, a.object))
}

#[test]
fn s3_address_reads_bucket_and_object() {
    assert_eq!(parts("s3://bucket/path/to/obj"), Some(("bucket".to_string(), "/path/to/obj".to_string())));
}

#[test]
fn s3_address_upper_case_scheme_without_object() {
    assert_eq!(parts("S3://b"), Some(("b".to_string(), "".to_string())));
}

#[test]
fn s3_address_leftmost_match_stops_at_other_chars() {
    assert_eq!(parts("xx s3://a.b-c_d/x y"), Some(("a.b-c_d".to_string(), "/x".to_string())));
}

#[test]
fn s3_address_refuses_missing_bucket() {
    assert_eq!(parts("s3://"), None);
    assert_eq!(parts("s3:///x"), None);
    assert_eq!(parts("http://x"), None);
    assert_eq!(parts(""), None);
}

#[test]
fn s3_address_bucket_is_whole_name_run() {
    assert_eq!(parts("s3://s3://x"), Some(("s3".to_string(), "".to_string())));
}

#[test]
fn s3_address_round_trip_law_instance() {
    let bucket = "my-bucket.v2";
    let object = "/dir/file_1.txt";
    let written = format!("s3://{}{}", bucket, object);
    assert_eq!(parts(&written), Some((bucket.to_string(), object.to_string())));
}

#[test]
fn json_listing_keys_finds_each_contents_entry() {
    let body = r#"{"Contents":["a.txt","x"],"Other":1,"Contents":["b","y"]}"#;
    assert_eq!(json_listing_keys(body), vec!["a.txt".to_string(), "b".to_string()]);
}

#[test]
fn json_listing_keys_needs_quote_after_key() {
    assert_eq!(json_listing_keys(r#""Contents":["bad key"]"#), Vec::<String>::new());
}

#[test]
fn json_listing_keys_bracket_must_be_on_same_line() {
    assert_eq!(json_listing_keys("\"Contents\":[\"k\"\n]"), Vec::<String>::new());
    assert_eq!(json_listing_keys("\"Contents\":[\"k\", 1]"), vec!["k".to_string()]);
}
