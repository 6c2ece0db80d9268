use autochannel::config::{
    Channels, Config, ConfigError, ConnectMethod, Message, Misc, RawQuery, Server, WebQuery,
};

fn server() -> Server {
    Server::new(None, Channels::Single(5), 9, None)
}

#[test]
fn defaults_fill_what_is_left_out() {
    let web = WebQuery::new(None, "key".to_string());
    assert_eq!(web.server(), "http://localhost:10080");
    assert_eq!(web.api_key(), "key");
    let raw = RawQuery::new(None, None, "serveradmin".to_string(), "pw".to_string());
    assert_eq!(raw.server(), "127.0.0.1");
    assert_eq!(raw.port(), 10011);
    assert_eq!(raw.user(), "serveradmin");
    assert_eq!(raw.password(), "pw");
    let server = server();
    assert_eq!(server.server_id(), 1);
    assert_eq!(server.channels(), vec![5]);
    assert_eq!(server.privilege_group_id(), 9);
    assert_eq!(server.redis_server(), "redis://127.0.0.1");
    let message = Message::new(None, None, None);
    assert_eq!(message.channel_not_found(), "I can't find you channel.");
    assert_eq!(message.create_channel(), "Your Channel has been created!");
    assert_eq!(message.move_to_channel(), "You have been moved into your channel.");
    assert_eq!(Misc::new(None).interval(), 5);
}

#[test]
fn given_values_are_kept() {
    let web = WebQuery::new(Some("http://ts:1".to_string()), "key".to_string());
    assert_eq!(web.server(), "http://ts:1");
    let raw = RawQuery::new(Some("ts".to_string()), Some(1), "u".to_string(), "p".to_string());
    assert_eq!(raw.server(), "ts");
    assert_eq!(raw.port(), 1);
    let server = Server::new(Some(3), Channels::Multiple(vec![5, 6, 7]), 9, Some("redis://r".to_string()));
    assert_eq!(server.server_id(), 3);
    assert_eq!(server.channels(), vec![5, 6, 7]);
    assert_eq!(server.redis_server(), "redis://r");
    let message = Message::new(Some("a".to_string()), Some("b".to_string()), Some("c".to_string()));
    assert_eq!(message.channel_not_found(), "a");
    assert_eq!(message.create_channel(), "b");
    assert_eq!(message.move_to_channel(), "c");
    assert_eq!(Misc::new(Some(250)).interval(), 250);
    assert_eq!(Channels::Multiple(vec![]).to_vec(), Vec::<i64>::new());
    assert_eq!(Channels::Single(-1).to_vec(), vec![-1]);
}

#[test]
fn text_transport_is_preferred() {
    let raw = RawQuery::new(None, None, "u".to_string(), "p".to_string());
    let web = WebQuery::new(None, "k".to_string());
    let both = Config::new(server(), Misc::new(None), Message::new(None, None, None), Some(raw.clone()), Some(web.clone()));
    assert_eq!(both.connect_method(), Ok(ConnectMethod::Raw));
    assert!(both.raw_query().is_some());
    assert!(both.web_query().is_some());
    assert_eq!(both.server().privilege_group_id(), 9);
    assert_eq!(both.misc().interval(), 5);
    assert_eq!(both.message().create_channel(), "Your Channel has been created!");
    let only_raw = Config::new(server(), Misc::new(None), Message::new(None, None, None), Some(raw), None);
    assert_eq!(only_raw.connect_method(), Ok(ConnectMethod::Raw));
    let only_web = Config::new(server(), Misc::new(None), Message::new(None, None, None), None, Some(web));
    assert_eq!(only_web.connect_method(), Ok(ConnectMethod::Web));
}

#[test]
fn configuration_without_transport_is_refused() {
    let none = Config::new(server(), Misc::new(None), Message::new(None, None, None), None, None);
    assert_eq!(none.connect_method(), Err(ConfigError::NoTransport));
}
