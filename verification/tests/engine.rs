use std::collections::HashMap;

use autochannel::engine::{
    Action, Engine, Event, ExitReason, Flow, Outcome, Phase, Settings, NAME_ATTEMPTS,
};
use autochannel::entities::{Client, CreateChannel, ServerInfo, WhoAmI};
use autochannel::status::QueryError;

fn settings(extra: HashMap<i64, Vec<(u64, i64)>>) -> Settings {
    Settings::new(
        vec![5, 6],
        9,
        500,
        extra,
        "no channel".to_string(),
        "created".to_string(),
        "moved".to_string(),
    )
}

fn client(clid: i64, cid: i64, account: i64, kind: i64, nick: &str) -> Client {
    Client::new(clid, cid, account, kind, None, nick.to_string())
}

fn describe(action: &Action) -> String {
    format!("{:?}", action)
}

fn expect(action: Action, wanted: &str) {
    assert_eq!(describe(&action), wanted);
}

fn failure(code: i32) -> QueryError {
    QueryError::new(code, "server says no".to_string())
}

/// An engine that has started and waits for the list of clients.
fn listing(extra: HashMap<i64, Vec<(u64, i64)>>) -> Engine {
    let (mut engine, first) = Engine::start(settings(extra));
    expect(first, "WhoAmI");
    assert_eq!(engine.phase(), Phase::Identify);
    expect(engine.step(Event::Identity(Ok(WhoAmI::new(1, 100)))), "QueryServerInfo");
    expect(
        engine.step(Event::Server(Ok(ServerInfo::new("uid=".to_string())))),
        "Wait { millis: 500 }",
    );
    expect(engine.step(Event::Elapsed), "QueryClients");
    assert_eq!(engine.phase(), Phase::List);
    engine
}

#[test]
fn first_visit_provisions_a_channel_end_to_end() {
    let mut engine = listing(HashMap::new());
    let clients = vec![client(7, 5, 42, 0, "alice")];
    expect(
        engine.step(Event::Clients(Ok(clients))),
        "Lookup { key: \"ts_autochannel_42_uid=_5\" }",
    );
    expect(engine.step(Event::Mapping(None)), "SendTextMessage { client: 7, text: \"no channel\" }");
    expect(
        engine.step(Event::Reply(Ok(()))),
        "CreateChannel { name: \"alice's channel\", parent: 5 }",
    );
    expect(
        engine.step(Event::Created(Ok(Some(CreateChannel::new(77))))),
        "SendTextMessage { client: 7, text: \"created\" }",
    );
    expect(
        engine.step(Event::Reply(Ok(()))),
        "SetClientChannelGroup { account: 42, channel: 77, group: 9 }",
    );
    expect(
        engine.step(Event::Reply(Ok(()))),
        "AddChannelPermission { channel: 77, permissions: [(133, 75)] }",
    );
    expect(
        engine.step(Event::Reply(Ok(()))),
        "Remember { key: \"ts_autochannel_42_uid=_5\", channel: 77 }",
    );
    expect(engine.step(Event::Stored), "MoveClient { client: 7, channel: 77 }");
    expect(engine.step(Event::Reply(Ok(()))), "SendTextMessage { client: 7, text: \"moved\" }");
    expect(engine.step(Event::Reply(Ok(()))), "MoveClient { client: 1, channel: 5 }");
    assert_eq!(engine.last_outcome(), None);
    expect(engine.step(Event::Reply(Ok(()))), "Wait { millis: 500 }");
    assert_eq!(engine.last_outcome(), Some(Outcome::Provisioned));
    assert_eq!(engine.phase(), Phase::Wait);
}

#[test]
fn extra_permissions_of_the_lobby_are_applied() {
    let mut extra = HashMap::new();
    extra.insert(5, vec![(10u64, 1i64), (11, -1)]);
    let mut engine = listing(extra);
    engine.step(Event::Clients(Ok(vec![client(7, 5, 42, 0, "alice")])));
    engine.step(Event::Mapping(None));
    engine.step(Event::Reply(Err(failure(512))));
    engine.step(Event::Created(Ok(Some(CreateChannel::new(77)))));
    engine.step(Event::Reply(Err(failure(512))));
    engine.step(Event::Reply(Err(failure(512))));
    expect(
        engine.step(Event::Reply(Err(failure(512)))),
        "AddChannelPermission { channel: 77, permissions: [(10, 1), (11, -1)] }",
    );
    assert_eq!(engine.phase(), Phase::Serve(Flow::Extra { channel: 77 }));
    expect(
        engine.step(Event::Reply(Err(failure(512)))),
        "Remember { key: \"ts_autochannel_42_uid=_5\", channel: 77 }",
    );
    expect(engine.step(Event::StoreFailed), "MoveClient { client: 7, channel: 77 }");
}

#[test]
fn mapped_client_is_moved_and_never_gets_a_new_channel() {
    let mut engine = listing(HashMap::new());
    for _ in 0..2 {
        let first = engine.step(Event::Clients(Ok(vec![client(7, 5, 42, 0, "alice")])));
        expect(first, "Lookup { key: \"ts_autochannel_42_uid=_5\" }");
        let mut seen = Vec::new();
        seen.push(describe(&engine.step(Event::Mapping(Some(77)))));
        seen.push(describe(&engine.step(Event::Reply(Ok(())))));
        let last = engine.step(Event::Reply(Ok(())));
        assert_eq!(seen, vec![
            "MoveClient { client: 7, channel: 77 }".to_string(),
            "SendTextMessage { client: 7, text: \"moved\" }".to_string(),
        ]);
        assert!(seen.iter().all(|a| !a.starts_with("CreateChannel")));
        expect(last, "Wait { millis: 500 }");
        assert_eq!(engine.last_outcome(), Some(Outcome::Moved));
        expect(engine.step(Event::Elapsed), "QueryClients");
    }
}

#[test]
fn three_collisions_append_three_ones() {
    let mut engine = listing(HashMap::new());
    engine.step(Event::Clients(Ok(vec![client(7, 5, 42, 0, "X")])));
    engine.step(Event::Mapping(None));
    expect(engine.step(Event::Reply(Ok(()))), "CreateChannel { name: \"X's channel\", parent: 5 }");
    expect(
        engine.step(Event::Created(Err(failure(771)))),
        "CreateChannel { name: \"X's channel1\", parent: 5 }",
    );
    expect(
        engine.step(Event::Created(Err(failure(771)))),
        "CreateChannel { name: \"X's channel11\", parent: 5 }",
    );
    expect(
        engine.step(Event::Created(Err(failure(771)))),
        "CreateChannel { name: \"X's channel111\", parent: 5 }",
    );
    assert_eq!(engine.phase(), Phase::Serve(Flow::Create { collisions: 3 }));
    expect(
        engine.step(Event::Created(Ok(Some(CreateChannel::new(80))))),
        "SendTextMessage { client: 7, text: \"created\" }",
    );
    assert_eq!(engine.phase(), Phase::Serve(Flow::NotifyCreated { channel: 80 }));
}

#[test]
fn collisions_are_given_up_after_the_last_attempt() {
    let mut engine = listing(HashMap::new());
    engine.step(Event::Clients(Ok(vec![client(7, 5, 42, 0, "X")])));
    engine.step(Event::Mapping(None));
    engine.step(Event::Reply(Ok(())));
    for _ in 1..NAME_ATTEMPTS {
        let action = engine.step(Event::Created(Err(failure(771))));
        assert!(describe(&action).starts_with("CreateChannel"));
    }
    expect(engine.step(Event::Created(Err(failure(771)))), "Wait { millis: 500 }");
    assert_eq!(engine.last_outcome(), Some(Outcome::Exhausted));
}

#[test]
fn other_create_failures_abandon_the_client() {
    let mut engine = listing(HashMap::new());
    engine.step(Event::Clients(Ok(vec![
        client(7, 5, 42, 0, "alice"),
        client(8, 6, 43, 0, "bob"),
    ])));
    engine.step(Event::Mapping(None));
    engine.step(Event::Reply(Ok(())));
    expect(
        engine.step(Event::Created(Err(failure(2568)))),
        "Lookup { key: \"ts_autochannel_43_uid=_6\" }",
    );
    assert_eq!(engine.last_outcome(), Some(Outcome::Rejected(2568)));
    engine.step(Event::Mapping(None));
    engine.step(Event::Reply(Ok(())));
    expect(engine.step(Event::Created(Ok(None))), "Wait { millis: 500 }");
    assert_eq!(engine.last_outcome(), Some(Outcome::NoChannelId));
}

#[test]
fn stale_target_forgets_the_mapping_and_skips_one_wait() {
    let mut engine = listing(HashMap::new());
    engine.step(Event::Clients(Ok(vec![client(7, 5, 42, 0, "alice")])));
    engine.step(Event::Mapping(Some(77)));
    expect(
        engine.step(Event::Reply(Err(failure(768)))),
        "Forget { key: \"ts_autochannel_42_uid=_5\" }",
    );
    assert_eq!(engine.phase(), Phase::Serve(Flow::Forget));
    expect(engine.step(Event::Stored), "QueryClients");
    assert_eq!(engine.last_outcome(), Some(Outcome::Stale));
    // The next poll finds no mapping and treats the client as new.
    engine.step(Event::Clients(Ok(vec![client(7, 5, 42, 0, "alice")])));
    expect(engine.step(Event::Mapping(None)), "SendTextMessage { client: 7, text: \"no channel\" }");
    engine.step(Event::Reply(Ok(())));
    expect(engine.step(Event::Created(Err(failure(1)))), "Wait { millis: 500 }");
}

#[test]
fn other_move_failures_abandon_the_client() {
    let mut engine = listing(HashMap::new());
    engine.step(Event::Clients(Ok(vec![client(7, 5, 42, 0, "alice")])));
    engine.step(Event::Mapping(Some(77)));
    expect(engine.step(Event::Reply(Err(failure(770)))), "Wait { millis: 500 }");
    assert_eq!(engine.last_outcome(), Some(Outcome::Rejected(770)));
}

#[test]
fn own_session_services_and_other_channels_are_skipped() {
    let mut engine = listing(HashMap::new());
    let clients = vec![
        client(1, 5, 100, 0, "the service"),
        client(2, 5, 50, 1, "a query client"),
        client(3, 9, 51, 0, "elsewhere"),
        client(4, 6, 52, 0, "carol"),
    ];
    expect(
        engine.step(Event::Clients(Ok(clients))),
        "Lookup { key: \"ts_autochannel_52_uid=_6\" }",
    );
    expect(engine.step(Event::StoreFailed), "Wait { millis: 500 }");
    assert_eq!(engine.last_outcome(), Some(Outcome::StoreUnavailable));
    expect(engine.step(Event::Elapsed), "QueryClients");
    expect(engine.step(Event::Clients(Ok(vec![]))), "Wait { millis: 500 }");
    assert_eq!(engine.last_outcome(), None);
}

#[test]
fn failed_listing_waits_for_the_next_cycle() {
    let mut engine = listing(HashMap::new());
    expect(engine.step(Event::Clients(Err(failure(-2)))), "Wait { millis: 500 }");
    assert_eq!(engine.phase(), Phase::Wait);
}

#[test]
fn cancellation_logs_out_and_ends_the_run() {
    let mut engine = listing(HashMap::new());
    engine.step(Event::Clients(Ok(vec![])));
    expect(engine.step(Event::Cancelled), "Logout");
    assert!(!engine.is_stopped());
    expect(engine.step(Event::Reply(Ok(()))), "Exit(Finished)");
    assert!(engine.is_stopped());
    expect(engine.step(Event::Elapsed), "Exit(Finished)");
    assert_eq!(engine.phase(), Phase::Stopped(ExitReason::Finished));
}

#[test]
fn failed_logout_is_reported() {
    let mut engine = listing(HashMap::new());
    engine.step(Event::Clients(Ok(vec![])));
    engine.step(Event::Cancelled);
    expect(engine.step(Event::Reply(Err(failure(-2)))), "Exit(LogoutFailed)");
}

#[test]
fn startup_failures_end_the_run() {
    let (mut engine, _) = Engine::start(settings(HashMap::new()));
    expect(engine.step(Event::Identity(Err(failure(520)))), "Exit(StartupFailed)");
    let (mut engine, _) = Engine::start(settings(HashMap::new()));
    engine.step(Event::Identity(Ok(WhoAmI::new(1, 100))));
    expect(engine.step(Event::Server(Err(failure(1024)))), "Exit(StartupFailed)");
    assert_eq!(engine.phase(), Phase::Stopped(ExitReason::StartupFailed));
}

#[test]
fn an_event_that_answers_nothing_ends_the_run() {
    let (mut engine, _) = Engine::start(settings(HashMap::new()));
    expect(engine.step(Event::Elapsed), "Exit(Unexpected)");
    let mut engine = listing(HashMap::new());
    engine.step(Event::Clients(Ok(vec![client(7, 5, 42, 0, "alice")])));
    expect(engine.step(Event::Reply(Ok(()))), "Exit(Unexpected)");
}
