use autochannel::entities::{Channel, Client, CreateChannel, ServerInfo, WhoAmI};
use autochannel::escape::{escape, has_closed_escapes, unescape};
use autochannel::json::FromJSON;
use autochannel::record::FromQueryString;
use autochannel::status::{QueryError, QueryStatus, WebQueryStatus};
use autochannel::text::{i64_to_string, parse_i32, parse_i64, u64_to_string};

const TEST_STRING: &str = "clid=8 cid=1 client_database_id=1 client_nickname=serveradmin client_type=1 client_unique_identifier=serveradmin";

#[test]
fn test() {
    let result = Client::from_query(TEST_STRING).unwrap();
    assert_eq!(result.client_id(), 8);
    assert_eq!(result.channel_id(), 1);
    assert_eq!(result.client_database_id(), 1);
    assert_eq!(result.client_nickname(), "serveradmin".to_string());
    assert_eq!(result.client_type(), 1);
    assert_eq!(result.client_unique_identifier(), "serveradmin".to_string());
}

#[test]
fn client_without_unique_identifier_falls_back_to_account() {
    let result = Client::from_query("clid=3 cid=5 client_database_id=42 client_nickname=alice client_type=0").unwrap();
    assert_eq!(result.client_unique_identifier(), "42".to_string());
}

#[test]
fn client_missing_field_is_parser_error() {
    let err = Client::from_query("clid=3 cid=5 client_nickname=alice client_type=0").unwrap_err();
    assert_eq!(err.code(), -2);
    assert_eq!(err.message(), "Got parser error.");
}

#[test]
fn client_wrong_type_is_parser_error() {
    let err = Client::from_query("clid=x cid=5 client_database_id=42 client_nickname=alice client_type=0").unwrap_err();
    assert_eq!(err.code(), -2);
}

#[test]
fn unknown_fields_are_ignored() {
    let who = WhoAmI::from_query("virtualserver_status=online client_id=7 client_database_id=9 extra=1").unwrap();
    assert_eq!(who.clid(), 7);
    assert_eq!(who.cldbid(), 9);
}

#[test]
fn channel_record_decodes() {
    let channel = Channel::from_query("cid=4 pid=0 channel_order=2 channel_name=My\\sLobby total_clients=3 channel_needed_subscribe_power=10").unwrap();
    assert_eq!(channel.cid(), 4);
    assert_eq!(channel.pid(), 0);
    assert_eq!(channel.channel_order(), 2);
    assert_eq!(channel.channel_name(), "My Lobby");
    assert_eq!(channel.total_clients(), 3);
    assert_eq!(channel.channel_needed_subscribe_power(), 10);
}

#[test]
fn create_channel_and_server_info_decode() {
    assert_eq!(CreateChannel::from_query("cid=17").unwrap().cid(), 17);
    let info = ServerInfo::from_query("virtualserver_unique_identifier=abc\\/def=").unwrap();
    assert_eq!(info.virtualserver_unique_identifier(), "abc/def=");
}

#[test]
fn decoded_values_are_unescaped_as_unescape_does() {
    let raw = "a\\sb\\/c\\\\d";
    let info = ServerInfo::from_query(&format!("virtualserver_unique_identifier={}", raw)).unwrap();
    assert_eq!(info.virtualserver_unique_identifier(), unescape(raw));
    assert_eq!(unescape(raw), "a b/c\\d");
}

#[test]
fn row_with_a_cut_escape_sequence_is_rejected() {
    for row in [
        "virtualserver_unique_identifier=ab\\",
        "virtualserver_unique_identifier=ab\\ other=1",
        "virtualserver_unique_identifier=ab x\\=1",
        "virtualserver_unique_identifier=%41\\\u{e9}",
        "virtualserver_unique_identifier=a\\\\\\",
    ] {
        let err = ServerInfo::from_query(row).unwrap_err();
        assert_eq!(err.code(), -2, "{}", row);
        assert_eq!(err.message(), "Got parser error.");
    }
}

#[test]
fn escape_sequences_are_whole_or_not() {
    assert!(has_closed_escapes(""));
    assert!(has_closed_escapes("a=b c=d"));
    assert!(has_closed_escapes("a=b\\sc"));
    assert!(has_closed_escapes("a=b\\\\"));
    assert!(has_closed_escapes("a=b\\pc"));
    assert!(has_closed_escapes(&escape(" \\ / =")));
    assert!(!has_closed_escapes("\\"));
    assert!(!has_closed_escapes("a=b\\"));
    assert!(!has_closed_escapes("a=b\\ c=d"));
    assert!(!has_closed_escapes("a\\=b"));
    assert!(!has_closed_escapes("a=\\\u{e9}"));
    assert!(!has_closed_escapes("a=b\\\\\\"));
}

#[test]
fn escape_sequence_that_the_protocol_does_not_define_is_dropped() {
    let info = ServerInfo::from_query("virtualserver_unique_identifier=a\\pb").unwrap();
    assert_eq!(info.virtualserver_unique_identifier(), "ab");
}

#[test]
fn escape_replaces_backslash_space_and_slash() {
    assert_eq!(escape("a b"), "a\\sb");
    assert_eq!(escape("a/b"), "a\\/b");
    assert_eq!(escape("a\\b"), "a\\\\b");
    assert_eq!(escape("\\ /"), "\\\\\\s\\/");
    assert_eq!(escape(""), "");
    assert_eq!(escape("plain"), "plain");
}

#[test]
fn unescape_round_trips_escape() {
    for s in ["", "a b", "\\", "//", " \\ / ", "x\\sy", "alice's channel", "\\\\s", "ünï cödé /"] {
        assert_eq!(unescape(&escape(s)), s);
    }
}

#[test]
fn unescape_drops_unknown_sequences_and_trailing_backslash() {
    assert_eq!(unescape("a\\xb"), "ab");
    assert_eq!(unescape("ab\\"), "ab");
}

#[test]
fn integers_parse_in_decimal() {
    assert_eq!(parse_i64("0"), Some(0));
    assert_eq!(parse_i64("42"), Some(42));
    assert_eq!(parse_i64("-42"), Some(-42));
    assert_eq!(parse_i64("+42"), Some(42));
    assert_eq!(parse_i64("007"), Some(7));
    assert_eq!(parse_i64("9223372036854775807"), Some(i64::MAX));
    assert_eq!(parse_i64("-9223372036854775808"), Some(i64::MIN));
    assert_eq!(parse_i64("9223372036854775808"), None);
    assert_eq!(parse_i64("-9223372036854775809"), None);
    assert_eq!(parse_i64(""), None);
    assert_eq!(parse_i64("-"), None);
    assert_eq!(parse_i64("+"), None);
    assert_eq!(parse_i64("1 "), None);
    assert_eq!(parse_i64("1.5"), None);
    assert_eq!(parse_i32("2147483647"), Some(i32::MAX));
    assert_eq!(parse_i32("-2147483648"), Some(i32::MIN));
    assert_eq!(parse_i32("2147483648"), None);
}

#[test]
fn integers_print_in_decimal() {
    assert_eq!(i64_to_string(0), "0");
    assert_eq!(i64_to_string(42), "42");
    assert_eq!(i64_to_string(-42), "-42");
    assert_eq!(i64_to_string(i64::MAX), "9223372036854775807");
    assert_eq!(i64_to_string(i64::MIN), "-9223372036854775808");
    assert_eq!(u64_to_string(u64::MAX), "18446744073709551615");
    assert_eq!(u64_to_string(10), "10");
}

#[test]
fn status_line_is_read() {
    let status = QueryStatus::try_from("error id=0 msg=ok").unwrap();
    assert_eq!(status.id(), 0);
    assert_eq!(status.msg(), "ok");
    assert!(status.is_ok());
    let status = QueryStatus::try_from("\rerror id=771 msg=channel\\sname\\sis\\salready\\sin\\suse").unwrap();
    assert_eq!(status.id(), 771);
    assert_eq!(status.msg(), "channel name is already in use");
    assert!(!status.is_ok());
}

#[test]
fn status_is_built_from_fields() {
    let pair = |k: &str, v: &str| (k.to_string(), v.to_string());
    let status =
        QueryStatus::from_fields(&vec![pair("extra", "1"), pair("id", "771"), pair("msg", "in use")])
            .unwrap();
    assert_eq!(status.id(), 771);
    assert_eq!(status.msg(), "in use");
    assert!(QueryStatus::from_fields(&vec![pair("id", "0")]).is_none());
    assert!(QueryStatus::from_fields(&vec![pair("msg", "ok")]).is_none());
    assert!(QueryStatus::from_fields(&vec![pair("id", "x"), pair("msg", "ok")]).is_none());
    assert!(QueryStatus::from_fields(&vec![pair("id", "2147483648"), pair("msg", "ok")]).is_none());
    assert!(QueryStatus::from_fields(&Vec::new()).is_none());
}

#[test]
fn status_line_without_marker_or_fields_is_rejected() {
    assert_eq!(QueryStatus::try_from("id=0 msg=ok").unwrap_err().code(), -2);
    assert_eq!(QueryStatus::try_from("error id=0").unwrap_err().code(), -2);
    assert_eq!(QueryStatus::try_from("error msg=ok").unwrap_err().code(), -2);
    assert_eq!(QueryStatus::try_from("error id=zero msg=ok").unwrap_err().code(), -2);
}

#[test]
fn status_becomes_result() {
    assert_eq!(QueryStatus::default().id(), 0);
    assert_eq!(QueryStatus::default().msg(), "ok");
    assert_eq!(QueryStatus::default().into_result(5).unwrap(), 5);
    let err = QueryStatus::new(768, "invalid channelID".to_string()).into_result(5).unwrap_err();
    assert_eq!(err.code(), 768);
    assert_eq!(err.message(), "invalid channelID");
    let err = QueryStatus::new(3, "x".to_string()).into_err();
    assert_eq!(err.code(), 3);
    let err: QueryError = QueryStatus::new(4, "y".to_string()).into();
    assert_eq!(err.code(), 4);
    assert_eq!(err.message(), "y");
}

#[test]
fn web_status_becomes_status() {
    let status = WebQueryStatus::new(771, "taken".to_string()).into_status();
    assert_eq!(status.id(), 771);
    assert_eq!(status.msg(), "taken");
    let status: QueryStatus = WebQueryStatus::new(0, "ok".to_string()).into();
    assert!(status.is_ok());
}

#[test]
fn errors_have_their_codes_and_text() {
    let err = QueryError::static_empty_response();
    assert_eq!(err.code(), -1);
    assert_eq!(err.message(), "Expect result but none found.");
    assert_eq!(err.to_string(), "Expect result but none found.(-1)");
    let err = QueryError::exchange_failed("timed out");
    assert_eq!(err.code(), -2);
    assert_eq!(err.to_string(), "timed out(-2)");
    assert_eq!(QueryError::new(771, "taken".to_string()).to_string(), "taken(771)");
    assert_eq!(QueryError::default().code(), 0);
}

#[test]
fn entities_decode_from_json_text() {
    let client = Client::from_json("{\"clid\":\"8\",\"cid\":\"1\",\"client_database_id\":\"2\",\"client_type\":\"0\",\"client_nickname\":\"bob\",\"extra\":5}").unwrap();
    assert_eq!(client.client_id(), 8);
    assert_eq!(client.client_database_id(), 2);
    assert_eq!(client.client_nickname(), "bob");
    assert_eq!(client.client_unique_identifier(), "2");
    assert_eq!(Client::from_json("{\"clid\":8}").unwrap_err().code(), -2);
    assert_eq!(Client::from_json("[1,2]").unwrap_err().code(), -2);
    assert_eq!(Client::from_json("not json").unwrap_err().code(), -2);
    assert_eq!(CreateChannel::from_json("{\"cid\":5}").unwrap_err().code(), -2);
    assert_eq!(CreateChannel::from_json("{\"cid\":\"5\"}").unwrap().cid(), 5);
}
