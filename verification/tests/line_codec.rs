use autochannel::entities::{Channel, Client, CreateChannel, WhoAmI};
use autochannel::line_request;
use autochannel::line_response::{
    basic_operation, decode_records, decode_status, decode_status_with_result, query_operation,
    query_operation_1, query_operation_1_non_error, query_operation_non_error, response_complete,
};

#[test]
fn multi_row_line_yields_two_records() {
    let rows = decode_records("a=1 b=x|a=2 b=y").unwrap();
    assert_eq!(rows.len(), 2);
    assert_eq!(rows[0], vec![("a".to_string(), "1".to_string()), ("b".to_string(), "x".to_string())]);
    assert_eq!(rows[1], vec![("a".to_string(), "2".to_string()), ("b".to_string(), "y".to_string())]);
}

#[test]
fn multi_row_answer_decodes_every_row() {
    let answer = "clid=1 cid=5 client_database_id=10 client_nickname=alice client_type=0|clid=2 cid=6 client_database_id=11 client_nickname=bob client_type=1\n\rerror id=0 msg=ok\n\r";
    let clients: Vec<Client> = query_operation_non_error(answer).unwrap();
    assert_eq!(clients.len(), 2);
    assert_eq!(clients[0].client_id(), 1);
    assert_eq!(clients[0].client_nickname(), "alice");
    assert_eq!(clients[1].client_id(), 2);
    assert_eq!(clients[1].channel_id(), 6);
    assert_eq!(clients[1].client_type(), 1);
}

#[test]
fn status_line_alone_is_success_without_rows() {
    let (status, rows) = decode_status_with_result::<Client>("error id=0 msg=ok\n\r").unwrap();
    assert_eq!(status.id(), 0);
    assert!(rows.is_none());
}

#[test]
fn data_line_before_status_line_is_captured_with_it() {
    let (status, rows) =
        decode_status_with_result::<CreateChannel>("cid=42\n\rerror id=0 msg=ok\n\r").unwrap();
    assert_eq!(status.id(), 0);
    assert_eq!(status.msg(), "ok");
    let rows = rows.unwrap();
    assert_eq!(rows.len(), 1);
    assert_eq!(rows[0].cid(), 42);
}

#[test]
fn informational_line_before_status_is_taken_for_data() {
    let err = decode_status_with_result::<CreateChannel>("Welcome\n\rerror id=0 msg=ok\n\r").unwrap_err();
    assert_eq!(err.code(), -2);
    assert_eq!(err.message(), "Got parser error.");
}

#[test]
fn error_status_has_no_rows() {
    let (status, rows) = decode_status_with_result::<CreateChannel>(
        "cid=42\n\rerror id=771 msg=channel\\sname\\sis\\salready\\sin\\suse\n\r",
    )
    .unwrap();
    assert_eq!(status.id(), 771);
    assert!(rows.is_none());
}

#[test]
fn status_is_found_on_any_line() {
    assert_eq!(decode_status("x=1\nerror id=3 msg=m").unwrap().id(), 3);
    assert_eq!(decode_status("  error id=4 msg=m \r\n").unwrap().id(), 4);
    assert_eq!(decode_status("error id=oops msg=m").unwrap_err().code(), -2);
}

#[test]
fn answer_without_status_line_does_not_decode() {
    for text in ["nothing here", "", "cid=42\n\r", "cid=42\n\rerrors id=0 msg=ok\n\r", "xerror id=0 msg=ok"] {
        let err = decode_status(text).unwrap_err();
        assert_eq!(err.code(), -2, "{:?}", text);
        assert_eq!(err.message(), "Can't find status line.");
        let err = decode_status_with_result::<CreateChannel>(text).unwrap_err();
        assert_eq!(err.code(), -2, "{:?}", text);
        assert_eq!(err.message(), "Can't find status line.");
        assert_eq!(basic_operation(text).unwrap_err().message(), "Can't find status line.");
        assert_eq!(
            query_operation::<CreateChannel>(text).unwrap_err().message(),
            "Can't find status line."
        );
    }
}

#[test]
fn basic_operation_follows_the_status() {
    assert!(basic_operation("error id=0 msg=ok\n\r").is_ok());
    let err = basic_operation("error id=768 msg=invalid\\schannelID\n\r").unwrap_err();
    assert_eq!(err.code(), 768);
    assert_eq!(err.message(), "invalid channelID");
    let err = basic_operation("").unwrap_err();
    assert_eq!(err.code(), -2);
    assert_eq!(err.message(), "Can't find status line.");
}

#[test]
fn query_operation_needs_status_and_result() {
    let err = query_operation_non_error::<WhoAmI>("client_id=1 client_database_id=2\n\r").unwrap_err();
    assert_eq!(err.message(), "Can't find status line.");
    let err = query_operation_non_error::<WhoAmI>("error id=0 msg=ok\n\r").unwrap_err();
    assert_eq!(err.code(), -2);
    assert_eq!(err.message(), "Can't find result line.");
    let err = query_operation::<WhoAmI>("error id=1024 msg=invalid\\sserverID\n\r").unwrap_err();
    assert_eq!(err.code(), 1024);
    let rows = query_operation::<WhoAmI>("client_id=1 client_database_id=2\n\rerror id=0 msg=ok\n\r")
        .unwrap()
        .unwrap();
    assert_eq!(rows.len(), 1);
    assert_eq!(rows[0].clid(), 1);
}

#[test]
fn single_result_is_the_first_row() {
    let who: WhoAmI =
        query_operation_1_non_error("client_id=7 client_database_id=9\n\rerror id=0 msg=ok\n\r").unwrap();
    assert_eq!(who.clid(), 7);
    assert_eq!(who.cldbid(), 9);
    let created: Option<CreateChannel> =
        query_operation_1("cid=5|cid=6\n\rerror id=0 msg=ok\n\r").unwrap();
    assert_eq!(created.unwrap().cid(), 5);
    let err = query_operation_1::<CreateChannel>("error id=771 msg=taken\n\r").unwrap_err();
    assert_eq!(err.code(), 771);
}

#[test]
fn channel_list_decodes() {
    let answer = "cid=1 pid=0 channel_order=0 channel_name=Lobby total_clients=2 channel_needed_subscribe_power=0|cid=2 pid=1 channel_order=0 channel_name=alice's\\schannel total_clients=1 channel_needed_subscribe_power=0\n\rerror id=0 msg=ok\n\r";
    let channels: Vec<Channel> = query_operation_non_error(answer).unwrap();
    assert_eq!(channels.len(), 2);
    assert_eq!(channels[1].pid(), 1);
    assert_eq!(channels[1].channel_name(), "alice's channel");
}

#[test]
fn answer_is_complete_with_status_and_terminator() {
    assert!(response_complete("error id=0 msg=ok\n\r"));
    assert!(response_complete("cid=1\n\rerror id=0 msg=ok\n\r"));
    assert!(!response_complete("error id=0 msg=ok"));
    assert!(!response_complete("error id=0 msg=ok\r\n"));
    assert!(!response_complete("cid=1\n\r"));
    assert!(!response_complete(""));
    assert!(!response_complete("\r"));
}

#[test]
fn request_lines_are_spelled_out() {
    assert_eq!(line_request::who_am_i(), "whoami\n\r");
    assert_eq!(line_request::query_server_info(), "serverinfo\n\r");
    assert_eq!(line_request::query_channels(), "channellist\n\r");
    assert_eq!(line_request::query_clients(), "clientlist -uid\n\r");
    assert_eq!(line_request::logout(), "quit\n\r");
    assert_eq!(
        line_request::send_text_message(8, "You have been moved."),
        "sendtextmessage targetmode=1 target=8 msg=You\\shave\\sbeen\\smoved.\n\r"
    );
    assert_eq!(
        line_request::create_channel("alice's channel", 5),
        "channelcreate channel_name=alice's\\schannel cpid=5 channel_codec_quality=6\n\r"
    );
    assert_eq!(line_request::move_client_to_channel(8, -3), "clientmove clid=8 cid=-3\n\r");
    assert_eq!(
        line_request::set_client_channel_group(42, 17, 5),
        "setclientchannelgroup cgid=5 cid=17 cldbid=42\n\r"
    );
    assert_eq!(
        line_request::add_channel_permission(17, &vec![(133, 75)]),
        "channeladdperm cid=17 permid=133 permvalue=75\n\r"
    );
    assert_eq!(
        line_request::add_channel_permission(17, &vec![(133, 75), (9, -1)]),
        "channeladdperm cid=17 permid=133 permvalue=75|permid=9 permvalue=-1\n\r"
    );
    assert_eq!(line_request::add_channel_permission(17, &vec![]), "channeladdperm cid=17 \n\r");
    assert_eq!(line_request::login("server admin", "p/w"), "login server\\sadmin p\\/w\n\r");
    assert_eq!(line_request::select_server(1), "use 1\n\r");
}

#[test]
fn requests_end_with_the_terminator() {
    assert!(line_request::check_terminated(&line_request::who_am_i()));
    assert!(line_request::check_terminated(&line_request::send_text_message(1, "a b")));
    assert!(!line_request::check_terminated("whoami\r\n"));
    assert!(!line_request::check_terminated("whoami"));
    assert!(!line_request::check_terminated(""));
}
