use surreal_commands::clock::ack_statement_now;
use surreal_commands::ident::{check_key, check_table_name, normalize_key};
use surreal_commands::json::render_record_payload;
use surreal_commands::num::{i64_to_dec, u64_to_dec};
use surreal_commands::record::CommandRecord;
use surreal_commands::store::{
    ack_statement, claim_statement, get_statement, poll_statement, publish_statement,
    resolve_limit, select_statement, update_statement,
};
use surreal_commands::text::{
    bytes_eq, eq_ignore_ascii_case, flatten_newlines, join_space, to_ascii_lower, trim_ascii,
};
use surreal_commands::url::{normalize_ws_hostport, normalize_ws_url, parse_host_port};

#[test]
fn lowercasing_touches_only_ascii_letters() {
    assert_eq!(to_ascii_lower(b"MiXeD-42_z"), b"mixed-42_z".to_vec());
    assert_eq!(to_ascii_lower(b""), Vec::<u8>::new());
}

#[test]
fn trimming_strips_ascii_whitespace_on_both_sides() {
    assert_eq!(trim_ascii(b"  +OK \r\n"), b"+OK".to_vec());
    assert_eq!(trim_ascii(b"\t\n "), Vec::<u8>::new());
    assert_eq!(trim_ascii(b"a b"), b"a b".to_vec());
}

#[test]
fn flattening_replaces_newlines_with_spaces() {
    assert_eq!(flatten_newlines(b"a\nb\rc"), b"a b c".to_vec());
}

#[test]
fn case_insensitive_comparison_and_plain_equality() {
    assert!(eq_ignore_ascii_case(b"NeW", b"new"));
    assert!(!eq_ignore_ascii_case(b"new", b"done"));
    assert!(!eq_ignore_ascii_case(b"new", b"news"));
    assert!(bytes_eq(b"abc", b"abc"));
    assert!(!bytes_eq(b"abc", b"abd"));
}

#[test]
fn joining_inserts_one_space() {
    assert_eq!(join_space(b"uuid_kill", b"abc-1"), b"uuid_kill abc-1".to_vec());
}

#[test]
fn decimal_rendering_matches_expected_digits() {
    assert_eq!(u64_to_dec(0), b"0".to_vec());
    assert_eq!(u64_to_dec(42), b"42".to_vec());
    assert_eq!(u64_to_dec(18446744073709551615), b"18446744073709551615".to_vec());
    assert_eq!(i64_to_dec(1700000000), b"1700000000".to_vec());
    assert_eq!(i64_to_dec(-7), b"-7".to_vec());
    assert_eq!(i64_to_dec(i64::MIN), b"-9223372036854775808".to_vec());
}

#[test]
fn claim_statement_is_unconditional() {
    assert_eq!(
        claim_statement(b"fs_commands", b"k1"),
        b"UPDATE fs_commands:k1 SET status = 'processing', claimed_at = time::now()".to_vec()
    );
}

#[test]
fn ack_statement_writes_done_with_flattened_result() {
    let s = ack_statement(b"fs_commands", b"k1", true, 1700000000, b"line1\nline2");
    assert_eq!(
        s,
        b"UPDATE fs_commands:k1 MERGE {\"status\":\"done\",\"processed_at\":1700000000,\"result\":\"line1 line2\"}"
            .to_vec()
    );
}

#[test]
fn ack_statement_writes_failed_and_escapes_the_result() {
    let s = ack_statement(b"t", b"k", false, -2, b"say \"hi\"\\ \t\x01");
    assert_eq!(
        s,
        b"UPDATE t:k MERGE {\"status\":\"failed\",\"processed_at\":-2,\"result\":\"say \\\"hi\\\"\\\\ \\t\\u0001\"}"
            .to_vec()
    );
}

#[test]
fn ack_statement_now_takes_the_clock_reading() {
    let s = ack_statement_now(b"t", b"k", true, b"ok");
    let text = String::from_utf8(s).unwrap();
    assert!(text.starts_with("UPDATE t:k MERGE {\"status\":\"done\",\"processed_at\":"));
    assert!(text.ends_with(",\"result\":\"ok\"}"));
}

#[test]
fn poll_statement_reads_only_new_rows_in_bounded_batches() {
    assert_eq!(
        poll_statement(b"fs_commands"),
        b"SELECT *, type::string(id) AS id FROM fs_commands WHERE status = 'new' LIMIT 50"
            .to_vec()
    );
}

#[test]
fn select_limit_defaults_and_caps() {
    assert_eq!(resolve_limit(0), 100);
    assert_eq!(resolve_limit(7), 7);
    assert_eq!(resolve_limit(20000), 10000);
    assert_eq!(
        select_statement(b"t", 100),
        b"SELECT *, type::string(id) AS id FROM t LIMIT 100".to_vec()
    );
}

#[test]
fn get_statement_reads_one_qualified_row() {
    assert_eq!(
        get_statement(b"t", b"k1"),
        b"SELECT *, type::string(id) AS id FROM t WHERE id = t:k1 LIMIT 1".to_vec()
    );
}

#[test]
fn publish_and_update_statements_pass_documents_through() {
    assert_eq!(
        publish_statement(b"t", b"{\"action\":\"api\"}"),
        b"CREATE t CONTENT {\"action\":\"api\"}".to_vec()
    );
    assert_eq!(
        update_statement(b"t", b"k", b"{\"status\":\"done\"}"),
        b"UPDATE t:k MERGE {\"status\":\"done\"}".to_vec()
    );
}

#[test]
fn identifier_checks_follow_the_allowed_alphabets() {
    assert!(check_table_name(b"fs_commands"));
    assert!(!check_table_name(b"fs;drop"));
    assert!(check_key(b"abc-123_X"));
    assert!(!check_key(b"a.b"));
}

#[test]
fn key_normalization_strips_a_matching_table_qualifier() {
    assert_eq!(normalize_key(b"t", b"t:k1"), b"k1".to_vec());
    assert_eq!(normalize_key(b"t", b"k1"), b"k1".to_vec());
    assert_eq!(normalize_key(b"t", b"u:k1"), b"u:k1".to_vec());
    assert_eq!(normalize_key(b"t", b"t:"), Vec::<u8>::new());
}

#[test]
fn payload_rewrites_the_id_and_omits_absent_fields() {
    let rec = CommandRecord {
        table: b"fs_commands".to_vec(),
        key: b"k1".to_vec(),
        action: b"hangup".to_vec(),
        cmd: Vec::new(),
        args: Vec::new(),
        uuid: b"abc-1".to_vec(),
        cause: Vec::new(),
        uuid_a: Vec::new(),
        uuid_b: Vec::new(),
        file: Vec::new(),
        legs: Vec::new(),
        status: b"new".to_vec(),
    };
    let payload = render_record_payload(&rec);
    assert_eq!(
        payload,
        b"{\"id\":\"fs_commands:k1\",\"action\":\"hangup\",\"uuid\":\"abc-1\",\"status\":\"new\"}"
            .to_vec()
    );
}

#[test]
fn hostport_normalization_strips_schemes_and_whitespace() {
    assert_eq!(normalize_ws_hostport("ws://127.0.0.1:8000"), "127.0.0.1:8000");
    assert_eq!(normalize_ws_hostport(" wss://example.com "), "example.com");
    assert_eq!(normalize_ws_hostport("http://h/x"), "h/x");
    assert_eq!(normalize_ws_hostport("https://h"), "h");
    assert_eq!(normalize_ws_hostport("127.0.0.1:8000"), "127.0.0.1:8000");
    assert_eq!(normalize_ws_url("ws://h:1"), "h:1");
}

#[test]
fn host_and_port_split_with_explicit_port() {
    assert_eq!(
        parse_host_port("ws://127.0.0.1:8000/rpc"),
        Some(("127.0.0.1".to_string(), 8000))
    );
    assert_eq!(parse_host_port("example.com:9001"), Some(("example.com".to_string(), 9001)));
}

#[test]
fn host_and_port_split_uses_scheme_defaults() {
    assert_eq!(parse_host_port("https://example.com"), Some(("example.com".to_string(), 443)));
    assert_eq!(parse_host_port("wss://example.com/x/y"), Some(("example.com".to_string(), 443)));
    assert_eq!(parse_host_port("http://h"), Some(("h".to_string(), 80)));
    assert_eq!(parse_host_port("ws://h"), Some(("h".to_string(), 80)));
    assert_eq!(parse_host_port("h"), Some(("h".to_string(), 8000)));
    assert_eq!(parse_host_port("ftp://h"), Some(("h".to_string(), 8000)));
}

#[test]
fn host_and_port_split_reads_bracketed_hosts() {
    assert_eq!(parse_host_port("[::1]:9000"), Some(("::1".to_string(), 9000)));
    assert_eq!(parse_host_port("ws://[::1]"), Some(("::1".to_string(), 80)));
    assert_eq!(parse_host_port("[abc"), None);
}

#[test]
fn host_and_port_split_rejects_unreadable_hosts() {
    assert_eq!(parse_host_port(""), None);
    assert_eq!(parse_host_port("ws://"), None);
    assert_eq!(parse_host_port(":8000"), None);
    assert_eq!(parse_host_port("ws:///path"), None);
}

#[test]
fn unparsable_ports_fall_back_to_the_default() {
    assert_eq!(parse_host_port("h:99999"), Some(("h".to_string(), 8000)));
    assert_eq!(parse_host_port("ws://h:12x"), Some(("h".to_string(), 80)));
    assert_eq!(parse_host_port("h:+80"), Some(("h".to_string(), 80)));
    assert_eq!(parse_host_port("h:"), Some(("h".to_string(), 8000)));
    assert_eq!(parse_host_port("h:1:2"), Some(("h".to_string(), 8000)));
}
