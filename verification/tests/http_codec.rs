use autochannel::entities::{Channel, Client, CreateChannel, WhoAmI};
use autochannel::http::{decode_body, HttpConn, Response};
use autochannel::http_request;
use autochannel::json::Json;
use autochannel::status::WebQueryStatus;

fn pair(k: &str, v: &str) -> (String, String) {
    (k.to_string(), v.to_string())
}

#[test]
fn basic_operation_follows_the_envelope_status() {
    assert!(HttpConn::basic_operation("{\"status\":{\"code\":0,\"message\":\"ok\"}}").is_ok());
    let err = HttpConn::basic_operation("{\"status\":{\"code\":768,\"message\":\"invalid channelID\"}}")
        .unwrap_err();
    assert_eq!(err.code(), 768);
    assert_eq!(err.message(), "invalid channelID");
    assert_eq!(HttpConn::basic_operation("{\"body\":[]}").unwrap_err().code(), -2);
    assert_eq!(HttpConn::basic_operation("{\"status\":{\"code\":\"0\",\"message\":\"ok\"}}").unwrap_err().code(), -2);
    assert_eq!(HttpConn::basic_operation("{\"status\":{\"code\":1.5,\"message\":\"ok\"}}").unwrap_err().code(), -2);
    assert_eq!(HttpConn::basic_operation("<html>").unwrap_err().message(), "Got parser error.");
}

#[test]
fn array_body_decodes_each_element() {
    let text = "{\"body\":[{\"clid\":\"1\",\"cid\":\"5\",\"client_database_id\":\"10\",\"client_type\":\"0\",\"client_nickname\":\"alice\"},{\"clid\":\"2\",\"cid\":\"6\",\"client_database_id\":\"11\",\"client_type\":\"1\",\"client_nickname\":\"bob\"}],\"status\":{\"code\":0,\"message\":\"ok\"}}";
    let clients: Vec<Client> = HttpConn::query_operation_non_error(text).unwrap();
    assert_eq!(clients.len(), 2);
    assert_eq!(clients[0].client_nickname(), "alice");
    assert_eq!(clients[1].client_id(), 2);
    assert_eq!(clients[1].client_type(), 1);
}

#[test]
fn object_body_is_one_element() {
    let text = "{\"body\":{\"cid\":\"77\"},\"status\":{\"code\":0,\"message\":\"ok\"}}";
    let rows: Vec<CreateChannel> = HttpConn::query_operation(text).unwrap().unwrap();
    assert_eq!(rows.len(), 1);
    assert_eq!(rows[0].cid(), 77);
    let one: Option<CreateChannel> = HttpConn::query_operation_1(text).unwrap();
    assert_eq!(one.unwrap().cid(), 77);
}

#[test]
fn missing_or_null_body_is_empty() {
    for text in [
        "{\"status\":{\"code\":0,\"message\":\"ok\"}}",
        "{\"body\":null,\"status\":{\"code\":0,\"message\":\"ok\"}}",
    ] {
        assert!(HttpConn::query_operation::<WhoAmI>(text).unwrap().is_none());
        assert!(HttpConn::query_operation_1::<WhoAmI>(text).unwrap().is_none());
        let err = HttpConn::query_operation_non_error::<WhoAmI>(text).unwrap_err();
        assert_eq!(err.code(), -1);
        assert_eq!(err.message(), "Expect result but none found.");
        assert_eq!(HttpConn::query_operation_1_non_error::<WhoAmI>(text).unwrap_err().code(), -1);
    }
}

#[test]
fn empty_array_has_no_first_entity() {
    let text = "{\"body\":[],\"status\":{\"code\":0,\"message\":\"ok\"}}";
    assert_eq!(HttpConn::query_operation::<Channel>(text).unwrap().unwrap().len(), 0);
    assert!(HttpConn::query_operation_1::<Channel>(text).unwrap().is_none());
    assert_eq!(HttpConn::query_operation_1_non_error::<Channel>(text).unwrap_err().code(), -1);
}

#[test]
fn status_error_is_surfaced_with_its_code() {
    let text = "{\"status\":{\"code\":771,\"message\":\"channel name is already in use\"}}";
    let err = HttpConn::query_operation_1::<CreateChannel>(text).unwrap_err();
    assert_eq!(err.code(), 771);
    assert_eq!(err.message(), "channel name is already in use");
}

#[test]
fn body_that_does_not_decode_is_a_parser_error() {
    let text = "{\"body\":[{\"cid\":\"x\"}],\"status\":{\"code\":0,\"message\":\"ok\"}}";
    assert_eq!(HttpConn::query_operation::<CreateChannel>(text).unwrap_err().code(), -2);
    let text = "{\"body\":\"cid=5\",\"status\":{\"code\":771,\"message\":\"taken\"}}";
    assert_eq!(HttpConn::query_operation::<CreateChannel>(text).unwrap_err().code(), -2);
}

#[test]
fn who_am_i_decodes_from_single_object() {
    let text = "{\"body\":[{\"client_id\":\"3\",\"client_database_id\":\"9\",\"virtualserver_id\":\"1\"}],\"status\":{\"code\":0,\"message\":\"ok\"}}";
    let who: WhoAmI = HttpConn::query_operation_1_non_error(text).unwrap();
    assert_eq!(who.clid(), 3);
    assert_eq!(who.cldbid(), 9);
}

#[test]
fn envelope_is_read_from_a_document() {
    let document = Json::Object(vec![
        ("body".to_string(), Json::Null),
        (
            "status".to_string(),
            Json::Object(vec![
                ("code".to_string(), Json::Number("0".to_string())),
                ("message".to_string(), Json::Text("ok".to_string())),
            ]),
        ),
    ]);
    assert!(Response::from_document(document).is_ok());
    assert_eq!(Response::from_document(Json::Array(vec![])).unwrap_err().code(), -2);
    assert_eq!(Response::from_document(Json::Object(vec![])).unwrap_err().code(), -2);
    assert!(Response::parse("{\"status\":{\"code\":5,\"message\":\"m\"}}").is_ok());
    let made = Response::new(None, WebQueryStatus::new(0, "ok".to_string()));
    assert!(format!("{:?}", made).contains("ok"));
}

#[test]
fn endpoint_and_query_are_spelled_out() {
    let conn = HttpConn::new("http://localhost:10080".to_string(), "SECRET".to_string(), 1);
    assert_eq!(conn.endpoint("clientmove"), "http://localhost:10080/1/clientmove");
    assert_eq!(conn.api_key(), "SECRET");
    assert_eq!(
        conn.query(vec![pair("clid", "8")]),
        vec![pair("clid", "8"), pair("api-key", "SECRET")]
    );
    assert_eq!(conn.query(vec![]), vec![pair("api-key", "SECRET")]);
}

#[test]
fn requests_name_their_operation_and_parameters() {
    let r = http_request::who_am_i();
    assert_eq!(r.method, "whoami");
    assert!(r.payload.is_empty());
    assert_eq!(http_request::query_server_info().method, "serverinfo");
    assert_eq!(http_request::query_channels().method, "channellist");
    assert_eq!(http_request::query_clients().method, "clientlist");
    let r = http_request::send_text_message(8, "hello there");
    assert_eq!(r.method, "sendtextmessage");
    assert_eq!(r.payload, vec![pair("targetmode", "1"), pair("target", "8"), pair("msg", "hello there")]);
    let r = http_request::create_channel("alice's channel", 5);
    assert_eq!(r.method, "channelcreate");
    assert_eq!(
        r.payload,
        vec![pair("channel_name", "alice's channel"), pair("cpid", "5"), pair("channel_codec_quality", "6")]
    );
    let r = http_request::move_client_to_channel(8, 77);
    assert_eq!(r.method, "clientmove");
    assert_eq!(r.payload, vec![pair("clid", "8"), pair("cid", "77")]);
    let r = http_request::set_client_channel_group(42, 77, 9);
    assert_eq!(r.method, "setclientchannelgroup");
    assert_eq!(r.payload, vec![pair("cgid", "9"), pair("cid", "77"), pair("cldbid", "42")]);
    let r = http_request::add_channel_permission(77, &vec![(133, 75), (10, -1)]);
    assert_eq!(r.method, "channeladdperm");
    assert_eq!(
        r.payload,
        vec![
            pair("cid", "77"),
            pair("permid", "133"),
            pair("permvalue", "75"),
            pair("permid", "10"),
            pair("permvalue", "-1"),
        ]
    );
}

fn channel_object(cid: &str) -> Json {
    Json::Object(vec![("cid".to_string(), Json::Text(cid.to_string()))])
}

#[test]
fn body_decodes_by_its_shape() {
    let many = Json::Array(vec![channel_object("4"), channel_object("9")]);
    let list = decode_body::<CreateChannel>(&many).unwrap();
    assert_eq!(list.len(), 2);
    assert_eq!(list[0].cid(), 4);
    assert_eq!(list[1].cid(), 9);

    let one = decode_body::<CreateChannel>(&channel_object("17")).unwrap();
    assert_eq!(one.len(), 1);
    assert_eq!(one[0].cid(), 17);

    let none = decode_body::<CreateChannel>(&Json::Array(Vec::new())).unwrap();
    assert!(none.is_empty());

    let broken = Json::Array(vec![channel_object("4"), Json::Text("9".to_string())]);
    let err = decode_body::<CreateChannel>(&broken).unwrap_err();
    assert_eq!(err.code(), -2);
    assert_eq!(err.message(), "Got parser error.");

    for body in [Json::Null, Json::Bool(true), Json::Number("4".to_string()), Json::Text("cid=4".to_string()), channel_object("x")] {
        assert_eq!(decode_body::<CreateChannel>(&body).unwrap_err().code(), -2);
    }
}
