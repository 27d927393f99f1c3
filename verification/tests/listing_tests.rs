use s3rs::listing::{json_bucket_names_of, json_bucket_names_of_text, scan_tag_texts, xml_bucket_names, xml_events, xml_object_keys, JsonValue, ListingError, XmlEvent};

#[test]
fn xml_bucket_names_reads_name_elements() {
    let body = r#"<?xml version="1.0" encoding="UTF-8"?><ListAllMyBucketsResult><Owner><ID>x</ID></Owner><Buckets><Bucket><Name>first</Name><CreationDate>2020</CreationDate></Bucket><Bucket><Name>se&amp;cond</Name></Bucket></Buckets></ListAllMyBucketsResult>"#;
    assert_eq!(xml_bucket_names(body), Ok(vec!["first".to_string(), "se&cond".to_string()]));
}

#[test]
fn xml_object_keys_reads_key_elements() {
    let body = "<ListBucketResult><Name>b</Name><Contents><Key>a/1.txt</Key><Size>3</Size></Contents><Contents><Key>b</Key></Contents></ListBucketResult>";
    assert_eq!(xml_object_keys(body), Ok(vec!["a/1.txt".to_string(), "b".to_string()]));
    assert_eq!(xml_object_keys(""), Ok(vec![]));
}

#[test]
fn xml_reader_failure_is_an_error() {
    assert_eq!(xml_bucket_names("<a><Name>x</b>"), Err(ListingError::Xml));
}

#[test]
fn scan_keeps_text_inside_tag_only() {
    let tag = b"Key".to_vec();
    let events = vec![
        XmlEvent::Text(Some("out".to_string())),
        XmlEvent::Start(b"Key".to_vec()),
        XmlEvent::Text(Some("in".to_string())),
        XmlEvent::Other,
        XmlEvent::End(b"Key".to_vec()),
        XmlEvent::Text(Some("after".to_string())),
    ];
    assert_eq!(scan_tag_texts(&events, &tag), Ok(vec!["in".to_string()]));
    let bad = vec![XmlEvent::Start(b"Key".to_vec()), XmlEvent::Text(None)];
    assert_eq!(scan_tag_texts(&bad, &tag), Err(ListingError::Xml));
    let outside_bad = vec![XmlEvent::Text(None), XmlEvent::Start(b"Key".to_vec()), XmlEvent::Text(Some("k".to_string()))];
    assert_eq!(scan_tag_texts(&outside_bad, &tag), Ok(vec!["k".to_string()]));
    assert_eq!(scan_tag_texts(&vec![XmlEvent::Error], &tag), Err(ListingError::Xml));
}

fn obj(entries: Vec<(&str, JsonValue)>) -> JsonValue {
    JsonValue::Object(entries.into_iter().map(|(k, v)| (k.to_string(), v)).collect())
}

#[test]
fn json_bucket_names_from_second_element() {
    let v = JsonValue::Array(vec![
        obj(vec![("ID", JsonValue::Str("o".to_string()))]),
        JsonValue::Array(vec![
            obj(vec![("Name", JsonValue::Str("b1".to_string())), ("CreationDate", JsonValue::Number("1".to_string()))]),
            obj(vec![("CreationDate", JsonValue::Null), ("Name", JsonValue::Str("b2".to_string()))]),
        ]),
    ]);
    assert_eq!(json_bucket_names_of(&v), Some(vec!["b1".to_string(), "b2".to_string()]));
}

#[test]
fn json_bucket_names_edge_cases() {
    assert_eq!(json_bucket_names_of(&JsonValue::Null), Some(vec![]));
    assert_eq!(json_bucket_names_of(&JsonValue::Array(vec![JsonValue::Null])), Some(vec![]));
    assert_eq!(json_bucket_names_of(&JsonValue::Array(vec![JsonValue::Null, JsonValue::Bool(true)])), Some(vec![]));
    let missing = JsonValue::Array(vec![JsonValue::Null, JsonValue::Array(vec![obj(vec![("Name", JsonValue::Number("3".to_string()))])])]);
    assert_eq!(json_bucket_names_of(&missing), None);
}

#[test]
fn xml_events_end_at_document_end() {
    let events = xml_events("<a>t</a>");
    let kinds: Vec<String> = events
        .iter()
        .map(|e| match e {
            XmlEvent::Start(n) => format!("start {}", String::from_utf8_lossy(n)),
            XmlEvent::End(n) => format!("end {}", String::from_utf8_lossy(n)),
            XmlEvent::Text(t) => format!("text {:?}", t),
            XmlEvent::Other => "other".to_string(),
            XmlEvent::Error => "error".to_string(),
        })
        .collect();
    assert_eq!(kinds, vec!["text Some(\"\")", "start a", "text Some(\"t\")", "end a"]);
}

#[test]
fn json_bucket_names_read_from_text() {
    let body = r#"[{"ID":"owner","DisplayName":"o"},[{"Name":"b1","CreationDate":"2020"},{"Name":"b2","Count":3}]]"#;
    assert_eq!(json_bucket_names_of_text(body), Some(vec!["b1".to_string(), "b2".to_string()]));
    assert_eq!(json_bucket_names_of_text(r#"[{"ID":"o"},[]]"#), Some(vec![]));
    assert_eq!(json_bucket_names_of_text(r#"{"Name":"x"}"#), Some(vec![]));
    assert_eq!(json_bucket_names_of_text(r#"[{},[{"Name":1}]]"#), None);
    assert_eq!(json_bucket_names_of_text("not json"), None);
    assert_eq!(json_bucket_names_of_text(""), None);
}
