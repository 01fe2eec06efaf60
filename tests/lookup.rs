use malquery::{
    action_after_query, download_form, downloading_notice, first_action, is_safe_file_name,
    query_form, querying_notice, read_reply, refused_name_notice, reply_lines, report_lines,
    strip_quotes,
    unreadable_notice, writing_notice, Action, QueryReply, Record, DOWNLOAD_DONE_NOTICE, ENDPOINT,
    NOT_FOUND_NOTICE, USAGE_HASHES, USAGE_LINE,
};

const FOUND_BODY: &str = r#"{"query_status":"ok","data":[{"sha256_hash":"094fd325049b8a9cf6d3e5ef2a6d4cc6a567d7d49c35f8bb8dd9e3c6acf3d78d","sha1_hash":"2d4ae7a4f7d1d2f0e1b4a31b3f2c6f4e2d9b0c11","md5_hash":"7d1b1a0f3e1b4c6d9a2e5f3c1b0a9d8e","file_type":"exe","tags":["exe","trojan"],"file_name":"sample.exe"}]}"#;

const FOUND_SHA256: &str = "094fd325049b8a9cf6d3e5ef2a6d4cc6a567d7d49c35f8bb8dd9e3c6acf3d78d";

fn args(items: &[&str]) -> Vec<String> {
    items.iter().map(|s| s.to_string()).collect()
}

fn pairs(form: &[(String, String)]) -> Vec<(&str, &str)> {
    form.iter().map(|(k, v)| (k.as_str(), v.as_str())).collect()
}

#[test]
fn no_argument_shows_usage() {
    assert!(matches!(first_action(&args(&[])), Action::ShowUsage));
}

#[test]
fn two_arguments_show_usage() {
    assert!(matches!(first_action(&args(&["a", "b"])), Action::ShowUsage));
}

#[test]
fn one_argument_is_looked_up() {
    match first_action(&args(&["abc123"])) {
        Action::Query { hash } => assert_eq!(hash, "abc123"),
        other => panic!("unexpected action {:?}", other),
    }
}

#[test]
fn query_form_fields() {
    let form = query_form("d41d8cd98f00b204e9800998ecf8427e");
    assert_eq!(
        pairs(&form),
        vec![("query", "get_info"), ("hash", "d41d8cd98f00b204e9800998ecf8427e")]
    );
}

#[test]
fn download_form_fields() {
    let form = download_form("abc123");
    assert_eq!(pairs(&form), vec![("query", "get_file"), ("sha256_hash", "abc123")]);
}

#[test]
fn endpoint_is_fixed() {
    assert_eq!(ENDPOINT, "https://mb-api.abuse.ch/api/v1/");
}

#[test]
fn null_entry_is_not_found() {
    let reply = read_reply(r#"{"data":[null]}"#);
    assert!(matches!(reply, QueryReply::NotFound));
    assert!(matches!(action_after_query(&reply), Action::Finish));
}

#[test]
fn empty_data_is_not_found() {
    assert!(matches!(read_reply(r#"{"data":[]}"#), QueryReply::NotFound));
}

#[test]
fn missing_data_is_not_found() {
    let reply = read_reply(r#"{"query_status":"hash_not_found"}"#);
    assert!(matches!(reply, QueryReply::NotFound));
}

#[test]
fn non_json_body_is_kept_verbatim() {
    let body = "<html>Service Unavailable</html>";
    let reply = read_reply(body);
    match &reply {
        QueryReply::Unreadable { raw } => assert_eq!(raw, body),
        other => panic!("unexpected reply {:?}", other),
    }
    match action_after_query(&reply) {
        Action::ReportUnreadable { raw } => assert_eq!(raw, body),
        other => panic!("unexpected action {:?}", other),
    }
}

#[test]
fn empty_body_is_unreadable() {
    assert!(matches!(read_reply(""), QueryReply::Unreadable { .. }));
}

#[test]
fn found_entry_gives_unquoted_sha256() {
    let reply = read_reply(FOUND_BODY);
    match &reply {
        QueryReply::Found { record, sha256 } => {
            assert_eq!(sha256, FOUND_SHA256);
            assert_eq!(record.sha256_hash, format!("\"{}\"", FOUND_SHA256));
            assert_eq!(record.file_type, "\"exe\"");
            assert_eq!(record.tags, r#"["exe","trojan"]"#);
        }
        other => panic!("unexpected reply {:?}", other),
    }
    match action_after_query(&reply) {
        Action::Download { sha256 } => assert_eq!(sha256, FOUND_SHA256),
        other => panic!("unexpected action {:?}", other),
    }
}

#[test]
fn found_entry_report_has_five_lines_in_order() {
    let reply = read_reply(FOUND_BODY);
    let record = match reply {
        QueryReply::Found { record, .. } => record,
        other => panic!("unexpected reply {:?}", other),
    };
    let lines = report_lines(&record);
    assert_eq!(
        lines,
        vec![
            r#"--- tags:     ["exe","trojan"]"#.to_string(),
            r#"--- type:     "exe""#.to_string(),
            r#"--- MD5:      "7d1b1a0f3e1b4c6d9a2e5f3c1b0a9d8e""#.to_string(),
            format!("--- SHA256:   \"{}\"", FOUND_SHA256),
            r#"--- SHA1:     "2d4ae7a4f7d1d2f0e1b4a31b3f2c6f4e2d9b0c11""#.to_string(),
        ]
    );
}

#[test]
fn missing_fields_read_as_null() {
    let reply = read_reply(r#"{"data":[{"file_type":"dll"}]}"#);
    match reply {
        QueryReply::Found { record, sha256 } => {
            assert_eq!(record.tags, "null");
            assert_eq!(record.md5_hash, "null");
            assert_eq!(sha256, "null");
        }
        other => panic!("unexpected reply {:?}", other),
    }
}

#[test]
fn report_lines_of_plain_record() {
    let record = Record {
        tags: "t".to_string(),
        file_type: "f".to_string(),
        md5_hash: "m".to_string(),
        sha256_hash: "s".to_string(),
        sha1_hash: "h".to_string(),
    };
    assert_eq!(
        report_lines(&record),
        vec![
            "--- tags:     t",
            "--- type:     f",
            "--- MD5:      m",
            "--- SHA256:   s",
            "--- SHA1:     h",
        ]
    );
}

#[test]
fn from_record_none_is_not_found() {
    assert!(matches!(QueryReply::from_record(None), QueryReply::NotFound));
}

#[test]
fn from_record_strips_quotes() {
    let record = Record {
        tags: "null".to_string(),
        file_type: "null".to_string(),
        md5_hash: "null".to_string(),
        sha256_hash: "\"abc123\"".to_string(),
        sha1_hash: "null".to_string(),
    };
    match QueryReply::from_record(Some(record)) {
        QueryReply::Found { record, sha256 } => {
            assert_eq!(sha256, "abc123");
            assert_eq!(record.sha256_hash, "\"abc123\"");
        }
        other => panic!("unexpected reply {:?}", other),
    }
}

#[test]
fn strip_quotes_removes_every_quote() {
    assert_eq!(strip_quotes("\"abc\""), "abc");
    assert_eq!(strip_quotes("a\"b\"\"c"), "abc");
    assert_eq!(strip_quotes("\"\""), "");
    assert_eq!(strip_quotes(""), "");
}

#[test]
fn strip_quotes_keeps_unquoted_text() {
    assert_eq!(strip_quotes("d41d8cd98f00b204e9800998ecf8427e"), "d41d8cd98f00b204e9800998ecf8427e");
    assert_eq!(strip_quotes("é'ü"), "é'ü");
}

#[test]
fn hex_hashes_are_safe_names() {
    assert!(is_safe_file_name(FOUND_SHA256));
    assert!(is_safe_file_name("abc123"));
    assert!(is_safe_file_name("A"));
}

#[test]
fn unsafe_names_are_refused() {
    assert!(!is_safe_file_name(""));
    assert!(!is_safe_file_name("."));
    assert!(!is_safe_file_name(".."));
    assert!(!is_safe_file_name("../etc/passwd"));
    assert!(!is_safe_file_name("a/b"));
    assert!(!is_safe_file_name("a\\b"));
    assert!(!is_safe_file_name("a\nb"));
    assert!(!is_safe_file_name("a\u{7f}"));
    assert!(is_safe_file_name("..."));
    assert!(is_safe_file_name(".hidden"));
}

#[test]
fn unsafe_sha256_is_not_downloaded() {
    let reply = read_reply(r#"{"data":[{"sha256_hash":"../x"}]}"#);
    match action_after_query(&reply) {
        Action::RefuseFileName { name } => assert_eq!(name, "../x"),
        other => panic!("unexpected action {:?}", other),
    }
}

#[test]
fn notices_read_as_printed() {
    assert_eq!(querying_notice("abc"), "[+] querying abc");
    assert_eq!(downloading_notice("abc"), "[+] downloading abc");
    assert_eq!(writing_notice("abc"), "[+] writing file to: abc");
    assert_eq!(unreadable_notice("oops"), "error, showing raw response oops");
    assert_eq!(refused_name_notice("a/b"), "[!] refusing to write to file name: a/b");
    assert_eq!(NOT_FOUND_NOTICE, "[!] hash not found");
    assert_eq!(DOWNLOAD_DONE_NOTICE, "[+] download success");
    assert_eq!(USAGE_LINE, "[usage] ./malquery [HASH]");
    assert_eq!(USAGE_HASHES, "        HASH: MD5, SHA256, SHA1");
}

#[test]
fn empty_content_md5_ends_without_download() {
    let hash = "d41d8cd98f00b204e9800998ecf8427e";
    let hash = match first_action(&args(&[hash])) {
        Action::Query { hash } => hash,
        other => panic!("unexpected action {:?}", other),
    };
    assert_eq!(
        pairs(&query_form(&hash)),
        vec![("query", "get_info"), ("hash", "d41d8cd98f00b204e9800998ecf8427e")]
    );
    let reply = read_reply(r#"{"query_status":"hash_not_found"}"#);
    assert!(matches!(reply, QueryReply::NotFound));
    assert!(matches!(action_after_query(&reply), Action::Finish));
}

#[test]
fn found_example_gives_bare_sha256_and_five_lines() {
    assert_eq!(querying_notice("aa11"), "[+] querying aa11");
    let reply = read_reply(
        r#"{"data":[{"tags":["exe"],"file_type":"exe","md5_hash":"aa11","sha256_hash":"bb22","sha1_hash":"cc33"}]}"#,
    );
    assert_eq!(
        reply_lines(&reply),
        vec![
            r#"--- tags:     ["exe"]"#,
            r#"--- type:     "exe""#,
            r#"--- MD5:      "aa11""#,
            r#"--- SHA256:   "bb22""#,
            r#"--- SHA1:     "cc33""#,
        ]
    );
    match &reply {
        QueryReply::Found { sha256, .. } => assert_eq!(sha256, "bb22"),
        other => panic!("unexpected reply {:?}", other),
    }
    match action_after_query(&reply) {
        Action::Download { sha256 } => assert_eq!(sha256, "bb22"),
        other => panic!("unexpected action {:?}", other),
    }
}

#[test]
fn not_found_prints_only_the_notice() {
    let reply = read_reply(r#"{"data":[null]}"#);
    assert_eq!(reply_lines(&reply), vec!["[!] hash not found"]);
}

#[test]
fn unreadable_prints_nothing_on_stdout() {
    let reply = read_reply("not json");
    assert!(reply_lines(&reply).is_empty());
}

#[test]
fn data_not_a_list_is_not_found() {
    assert!(matches!(read_reply(r#"{"data":{"a":1}}"#), QueryReply::NotFound));
    assert!(matches!(read_reply(r#"[1,2]"#), QueryReply::NotFound));
}

#[test]
fn empty_content_md5_with_null_entry_ends_without_download() {
    let hash = "d41d8cd98f00b204e9800998ecf8427e";
    assert_eq!(querying_notice(hash), "[+] querying d41d8cd98f00b204e9800998ecf8427e");
    let reply = read_reply(r#"{"data":[null]}"#);
    assert!(matches!(reply, QueryReply::NotFound));
    assert_eq!(reply_lines(&reply), vec!["[!] hash not found"]);
    assert!(matches!(action_after_query(&reply), Action::Finish));
}
