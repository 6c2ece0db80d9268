//! The reconciliation engine: for every user who waits in a monitored lobby
//! it finds or creates a private channel, grants the user a privilege group on
//! it, remembers the assignment, and moves the user in.
//!
//! The engine performs nothing itself. [`Engine::step`] takes the outcome of
//! the last thing that was done, an [`Event`], and answers with the next thing
//! to do, an [`Action`]: an operation of the capability interface, a read or
//! write of the mapping store, a wait, or the end of the run. Whoever drives
//! the engine performs the action and hands back what came of it. What the
//! engine answers is the function [`step_spec`] of its state and the event,
//! and nothing else.

use vstd::prelude::*;
use std::collections::HashMap;
use crate::entities::{
    Client,
    ClientView,
    CreateChannel,
    ServerInfo,
    WhoAmI,
    WhoAmIView,
    CLIENT_TYPE_SERVICE,
};
use crate::status::QueryResult;
use crate::text::{decimal, push_decimal, push_str};

verus! {

/// The status code of a channel name that is already taken.
pub const NAME_COLLISION: i32 = 771;

/// The status code of a move whose target channel no longer exists.
pub const STALE_TARGET: i32 = 768;

/// The permission that every new channel gets.
pub const BASELINE_PERMISSION: u64 = 133;

/// The value of the permission that every new channel gets.
pub const BASELINE_VALUE: i64 = 75;

/// How many names are tried for one user's channel before the engine gives
/// the user up for this cycle.
pub const NAME_ATTEMPTS: u32 = 64;

/// The mathematical content of [`Settings`].
pub struct SettingsView {
    pub monitor_channels: Seq<i64>,
    pub privilege_group: i64,
    pub interval: u64,
    pub channel_permissions: Map<i64, Seq<(u64, i64)>>,
    pub channel_not_found: Seq<char>,
    pub create_channel: Seq<char>,
    pub move_to_channel: Seq<char>,
}

/// What the engine is configured with, fixed when it is made.
pub struct Settings {
    monitor_channels: Vec<i64>,
    privilege_group: i64,
    interval: u64,
    channel_permissions: HashMap<i64, Vec<(u64, i64)>>,
    channel_not_found: String,
    create_channel: String,
    move_to_channel: String,
}

impl View for Settings {
    type V = SettingsView;

    closed spec fn view(&self) -> SettingsView {
        SettingsView {
            monitor_channels: self.monitor_channels@,
            privilege_group: self.privilege_group,
            interval: self.interval,
            channel_permissions: permissions_view(self.channel_permissions@),
            channel_not_found: self.channel_not_found@,
            create_channel: self.create_channel@,
            move_to_channel: self.move_to_channel@,
        }
    }
}

/// The extra permissions of each lobby, as sequences.
pub open spec fn permissions_view(m: Map<i64, Vec<(u64, i64)>>) -> Map<i64, Seq<(u64, i64)>> {
    Map::new(|channel: i64| m.contains_key(channel), |channel: i64| m[channel]@)
}

impl Settings {
    /// The settings of an engine that watches `monitor_channels`, grants
    /// `privilege_group`, waits `interval` milliseconds between two cycles,
    /// adds `channel_permissions[lobby]` to a channel made for a user of
    /// `lobby`, and tells users the three given messages.
    pub fn new(
        monitor_channels: Vec<i64>,
        privilege_group: i64,
        interval: u64,
        channel_permissions: HashMap<i64, Vec<(u64, i64)>>,
        channel_not_found: String,
        create_channel: String,
        move_to_channel: String,
    ) -> (r: Self)
        ensures
            r@ == (SettingsView {
                monitor_channels: monitor_channels@,
                privilege_group,
                interval,
                channel_permissions: permissions_view(channel_permissions@),
                channel_not_found: channel_not_found@,
                create_channel: create_channel@,
                move_to_channel: move_to_channel@,
            }),
    {
        Settings {
            monitor_channels,
            privilege_group,
            interval,
            channel_permissions,
            channel_not_found,
            create_channel,
            move_to_channel,
        }
    }
}

/// Where the service of one user stands: the answer that the engine waits for.
#[derive(Clone, Copy, Debug, PartialEq, Eq)]
pub enum Flow {
    /// The store's answer to the lookup of the user's mapping.
    Lookup,
    /// The reply to the message that no channel was found.
    NotifyMissing,
    /// The reply to an attempt to create the channel, after `collisions`
    /// names were found taken.
    Create { collisions: u32 },
    /// The reply to the message that the channel was created.
    NotifyCreated { channel: i64 },
    /// The reply to the grant of the privilege group.
    Group { channel: i64 },
    /// The reply to the baseline permission.
    Baseline { channel: i64 },
    /// The reply to the lobby's extra permissions.
    Extra { channel: i64 },
    /// The store's answer to the new mapping.
    Persist { channel: i64 },
    /// The reply to the user's move; `created` where the channel is new.
    Move { channel: i64, created: bool },
    /// The store's answer to the removal of a stale mapping.
    Forget,
    /// The reply to the message that the user was moved.
    NotifyMoved { created: bool },
    /// The reply to the service's own move back into the lobby.
    Return,
}

/// Why a run ended.
#[derive(Clone, Copy, Debug, PartialEq, Eq)]
pub enum ExitReason {
    /// A cancellation was seen while waiting, and the logout succeeded.
    Finished,
    /// The service's identity or the server's description could not be had.
    StartupFailed,
    /// A cancellation was seen while waiting, and the logout failed.
    LogoutFailed,
    /// An event arrived that does not answer the engine's last action.
    Unexpected,
}

/// How the service of one user ended.
#[derive(Clone, Copy, Debug, PartialEq, Eq)]
pub enum Outcome {
    /// The user was moved into the channel that the store names.
    Moved,
    /// A channel was created for the user, who was moved into it.
    Provisioned,
    /// The store named a channel that no longer exists; the mapping is gone.
    Stale,
    /// The server refused to create the channel or to move the user.
    Rejected(i32),
    /// Every name that was tried for the channel was taken.
    Exhausted,
    /// The server reported a new channel without saying which.
    NoChannelId,
    /// The store could not be read.
    StoreUnavailable,
}

/// What the engine waits for.
#[derive(Clone, Copy, Debug, PartialEq, Eq)]
pub enum Phase {
    /// The service's own identity.
    Identify,
    /// The server's description.
    Describe,
    /// The end of the wait between two cycles, or a cancellation.
    Wait,
    /// The list of clients.
    List,
    /// An answer in the service of the client under the cursor.
    Serve(Flow),
    /// The reply to the logout.
    Leave,
    /// Nothing: the run has ended.
    Stopped(ExitReason),
}

/// The mathematical content of an [`Action`].
pub enum ActionView {
    WhoAmI,
    QueryServerInfo,
    Wait { millis: u64 },
    QueryClients,
    Lookup { key: Seq<char> },
    SendTextMessage { client: i64, text: Seq<char> },
    CreateChannel { name: Seq<char>, parent: i64 },
    SetClientChannelGroup { account: i64, channel: i64, group: i64 },
    AddChannelPermission { channel: i64, permissions: Seq<(u64, i64)> },
    Remember { key: Seq<char>, channel: i64 },
    Forget { key: Seq<char> },
    MoveClient { client: i64, channel: i64 },
    Logout,
    Exit(ExitReason),
}

/// What the engine asks its driver to do next.
#[derive(Debug)]
pub enum Action {
    /// Ask the server who the service is; answer with [`Event::Identity`].
    WhoAmI,
    /// Ask the server for its description; answer with [`Event::Server`].
    QueryServerInfo,
    /// Wait for a cancellation, at most `millis` milliseconds; answer with
    /// [`Event::Cancelled`] or [`Event::Elapsed`].
    Wait { millis: u64 },
    /// Ask the server for its clients; answer with [`Event::Clients`].
    QueryClients,
    /// Read the mapping stored under `key`; answer with [`Event::Mapping`],
    /// or with [`Event::StoreFailed`].
    Lookup { key: String },
    /// Send `text` to `client`; answer with [`Event::Reply`].
    SendTextMessage { client: i64, text: String },
    /// Create the channel `name` under `parent`; answer with
    /// [`Event::Created`].
    CreateChannel { name: String, parent: i64 },
    /// Put `account` into `group` on `channel`; answer with [`Event::Reply`].
    SetClientChannelGroup { account: i64, channel: i64, group: i64 },
    /// Set `permissions` on `channel`; answer with [`Event::Reply`].
    AddChannelPermission { channel: i64, permissions: Vec<(u64, i64)> },
    /// Store `channel` under `key`; answer with [`Event::Stored`] or
    /// [`Event::StoreFailed`].
    Remember { key: String, channel: i64 },
    /// Delete what is stored under `key`; answer with [`Event::Stored`] or
    /// [`Event::StoreFailed`].
    Forget { key: String },
    /// Move `client` into `channel`; answer with [`Event::Reply`].
    MoveClient { client: i64, channel: i64 },
    /// Log out; answer with [`Event::Reply`].
    Logout,
    /// End the run.
    Exit(ExitReason),
}

impl View for Action {
    type V = ActionView;

    open spec fn view(&self) -> ActionView {
        match *self {
            Action::WhoAmI => ActionView::WhoAmI,
            Action::QueryServerInfo => ActionView::QueryServerInfo,
            Action::Wait { millis } => ActionView::Wait { millis },
            Action::QueryClients => ActionView::QueryClients,
            Action::Lookup { key } => ActionView::Lookup { key: key@ },
            Action::SendTextMessage { client, text } => ActionView::SendTextMessage {
                client,
                text: text@,
            },
            Action::CreateChannel { name, parent } => ActionView::CreateChannel {
                name: name@,
                parent,
            },
            Action::SetClientChannelGroup {
                account,
                channel,
                group,
            } => ActionView::SetClientChannelGroup { account, channel, group },
            Action::AddChannelPermission {
                channel,
                permissions,
            } => ActionView::AddChannelPermission { channel, permissions: permissions@ },
            Action::Remember { key, channel } => ActionView::Remember { key: key@, channel },
            Action::Forget { key } => ActionView::Forget { key: key@ },
            Action::MoveClient { client, channel } => ActionView::MoveClient { client, channel },
            Action::Logout => ActionView::Logout,
            Action::Exit(reason) => ActionView::Exit(reason),
        }
    }
}

/// What the engine reads in an [`Event`]: results as they are, failures by
/// their status code.
pub enum EventView {
    Identity(Result<WhoAmIView, i32>),
    Server(Result<Seq<char>, i32>),
    Clients(Result<Seq<ClientView>, i32>),
    Mapping(Option<i64>),
    Created(Result<Option<i64>, i32>),
    Reply(Result<(), i32>),
    Stored,
    StoreFailed,
    Elapsed,
    Cancelled,
}

/// What came of the engine's last action.
#[derive(Debug)]
pub enum Event {
    /// The answer to [`Action::WhoAmI`].
    Identity(QueryResult<WhoAmI>),
    /// The answer to [`Action::QueryServerInfo`].
    Server(QueryResult<ServerInfo>),
    /// The answer to [`Action::QueryClients`].
    Clients(QueryResult<Vec<Client>>),
    /// The answer to [`Action::Lookup`]: the channel stored under the key,
    /// if there is one.
    Mapping(Option<i64>),
    /// The answer to [`Action::CreateChannel`].
    Created(QueryResult<Option<CreateChannel>>),
    /// The answer to an operation that returns nothing.
    Reply(QueryResult<()>),
    /// The store did what [`Action::Remember`] or [`Action::Forget`] asked.
    Stored,
    /// The store could not be reached.
    StoreFailed,
    /// The wait ended without a cancellation.
    Elapsed,
    /// A cancellation was seen during the wait.
    Cancelled,
}

/// The views of a list of clients.
pub open spec fn clients_view(list: Seq<Client>) -> Seq<ClientView> {
    Seq::new(list.len(), |i: int| list[i]@)
}

impl View for Event {
    type V = EventView;

    open spec fn view(&self) -> EventView {
        match *self {
            Event::Identity(Ok(who)) => EventView::Identity(Ok(who@)),
            Event::Identity(Err(e)) => EventView::Identity(Err(e@.code)),
            Event::Server(Ok(info)) => EventView::Server(Ok(info@.virtualserver_unique_identifier)),
            Event::Server(Err(e)) => EventView::Server(Err(e@.code)),
            Event::Clients(Ok(list)) => EventView::Clients(Ok(clients_view(list@))),
            Event::Clients(Err(e)) => EventView::Clients(Err(e@.code)),
            Event::Mapping(found) => EventView::Mapping(found),
            Event::Created(Ok(Some(created))) => EventView::Created(Ok(Some(created@.cid))),
            Event::Created(Ok(None)) => EventView::Created(Ok(None)),
            Event::Created(Err(e)) => EventView::Created(Err(e@.code)),
            Event::Reply(Ok(_)) => EventView::Reply(Ok(())),
            Event::Reply(Err(e)) => EventView::Reply(Err(e@.code)),
            Event::Stored => EventView::Stored,
            Event::StoreFailed => EventView::StoreFailed,
            Event::Elapsed => EventView::Elapsed,
            Event::Cancelled => EventView::Cancelled,
        }
    }
}

/// The mathematical content of an [`Engine`].
pub struct EngineView {
    pub settings: SettingsView,
    pub phase: Phase,
    pub who: WhoAmIView,
    pub server_uid: Seq<char>,
    pub clients: Seq<ClientView>,
    pub cursor: nat,
    pub skip_wait: bool,
    pub outcome: Option<Outcome>,
}

/// The engine's state between two steps.
pub struct Engine {
    settings: Settings,
    phase: Phase,
    who: WhoAmI,
    server_uid: String,
    clients: Vec<Client>,
    cursor: usize,
    skip_wait: bool,
    outcome: Option<Outcome>,
}

impl View for Engine {
    type V = EngineView;

    closed spec fn view(&self) -> EngineView {
        EngineView {
            settings: self.settings@,
            phase: self.phase,
            who: self.who@,
            server_uid: self.server_uid@,
            clients: clients_view(self.clients@),
            cursor: self.cursor as nat,
            skip_wait: self.skip_wait,
            outcome: self.outcome,
        }
    }
}

/// The key under which the store holds the channel of one account for one
/// lobby of one server.
pub open spec fn mapping_key(account: i64, server_uid: Seq<char>, lobby: i64) -> Seq<char> {
    "ts_autochannel_"@ + decimal(account as int) + seq!['_'] + server_uid + seq!['_'] + decimal(
        lobby as int,
    )
}

/// The name that is tried for a user's channel after `collisions` names were
/// found taken: the user's name, `'s channel`, and one `1` for each collision.
pub open spec fn candidate_name(nickname: Seq<char>, collisions: nat) -> Seq<char> {
    nickname + "'s channel"@ + Seq::new(collisions, |i: int| '1')
}

/// Whether a client is served: it is not the service's own account, it is no
/// service connection, and it waits in a monitored lobby.
pub open spec fn eligible(settings: SettingsView, who: WhoAmIView, client: ClientView) -> bool {
    &&& client.client_database_id != who.client_database_id
    &&& settings.monitor_channels.contains(client.cid)
    &&& client.client_type != CLIENT_TYPE_SERVICE
}

/// The position of the first served client at or behind `from`, or the
/// length of the list where there is none.
pub open spec fn next_eligible(e: EngineView, from: nat) -> nat
    decreases e.clients.len() - from,
{
    if from >= e.clients.len() {
        e.clients.len()
    } else if eligible(e.settings, e.who, e.clients[from as int]) {
        from
    } else {
        next_eligible(e, from + 1)
    }
}

/// The key of the client at position `at`.
pub open spec fn key_of(e: EngineView, at: int) -> Seq<char> {
    mapping_key(e.clients[at].client_database_id, e.server_uid, e.clients[at].cid)
}

/// The end of a run.
pub open spec fn halt(e: EngineView, reason: ExitReason) -> (EngineView, ActionView) {
    (EngineView { phase: Phase::Stopped(reason), ..e }, ActionView::Exit(reason))
}

/// The next stage in the service of the client under the cursor.
pub open spec fn proceed(e: EngineView, flow: Flow, action: ActionView) -> (
    EngineView,
    ActionView,
) {
    (EngineView { phase: Phase::Serve(flow), ..e }, action)
}

/// The end of one client's service, or the start of a cycle's pass over the
/// list. The engine turns to the first served client at or behind `from` and
/// looks up its mapping. Where there is none left, the cycle is over: the
/// engine waits, or, where a stale mapping was found in this cycle, asks for
/// the clients again at once.
pub open spec fn turn_to(e: EngineView, from: nat, outcome: Option<Outcome>) -> (
    EngineView,
    ActionView,
) {
    let at = next_eligible(e, from);
    if at < e.clients.len() {
        (
            EngineView { phase: Phase::Serve(Flow::Lookup), cursor: at, outcome, ..e },
            ActionView::Lookup { key: key_of(e, at as int) },
        )
    } else if e.skip_wait {
        (
            EngineView { phase: Phase::List, cursor: at, skip_wait: false, outcome, ..e },
            ActionView::QueryClients,
        )
    } else {
        (
            EngineView { phase: Phase::Wait, cursor: at, outcome, ..e },
            ActionView::Wait { millis: e.settings.interval },
        )
    }
}

/// One step in the service of the client under the cursor.
pub open spec fn serve(e: EngineView, flow: Flow, event: EventView) -> (EngineView, ActionView)
    recommends
        e.cursor < e.clients.len(),
{
    let client = e.clients[e.cursor as int];
    let key = key_of(e, e.cursor as int);
    let next = e.cursor + 1;
    match (flow, event) {
        (Flow::Lookup, EventView::Mapping(Some(channel))) => proceed(
            e,
            Flow::Move { channel, created: false },
            ActionView::MoveClient { client: client.clid, channel },
        ),
        (Flow::Lookup, EventView::Mapping(None)) => proceed(
            e,
            Flow::NotifyMissing,
            ActionView::SendTextMessage { client: client.clid, text: e.settings.channel_not_found },
        ),
        (Flow::Lookup, EventView::StoreFailed) => turn_to(
            e,
            next as nat,
            Some(Outcome::StoreUnavailable),
        ),
        (Flow::NotifyMissing, EventView::Reply(_)) => proceed(
            e,
            Flow::Create { collisions: 0 },
            ActionView::CreateChannel {
                name: candidate_name(client.client_nickname, 0),
                parent: client.cid,
            },
        ),
        (Flow::Create { collisions }, EventView::Created(Ok(Some(channel)))) => proceed(
            e,
            Flow::NotifyCreated { channel },
            ActionView::SendTextMessage { client: client.clid, text: e.settings.create_channel },
        ),
        (Flow::Create { collisions }, EventView::Created(Ok(None))) => turn_to(
            e,
            next as nat,
            Some(Outcome::NoChannelId),
        ),
        (Flow::Create { collisions }, EventView::Created(Err(code))) => if code != NAME_COLLISION {
            turn_to(e, next as nat, Some(Outcome::Rejected(code)))
        } else if collisions + 1 < NAME_ATTEMPTS {
            proceed(
                e,
                Flow::Create { collisions: (collisions + 1) as u32 },
                ActionView::CreateChannel {
                    name: candidate_name(client.client_nickname, (collisions + 1) as nat),
                    parent: client.cid,
                },
            )
        } else {
            turn_to(e, next as nat, Some(Outcome::Exhausted))
        },
        (Flow::NotifyCreated { channel }, EventView::Reply(_)) => proceed(
            e,
            Flow::Group { channel },
            ActionView::SetClientChannelGroup {
                account: client.client_database_id,
                channel,
                group: e.settings.privilege_group,
            },
        ),
        (Flow::Group { channel }, EventView::Reply(_)) => proceed(
            e,
            Flow::Baseline { channel },
            ActionView::AddChannelPermission {
                channel,
                permissions: seq![(BASELINE_PERMISSION, BASELINE_VALUE)],
            },
        ),
        (Flow::Baseline { channel }, EventView::Reply(_)) => if e.settings.channel_permissions.contains_key(
            client.cid,
        ) {
            proceed(
                e,
                Flow::Extra { channel },
                ActionView::AddChannelPermission {
                    channel,
                    permissions: e.settings.channel_permissions[client.cid],
                },
            )
        } else {
            proceed(e, Flow::Persist { channel }, ActionView::Remember { key, channel })
        },
        (Flow::Extra { channel }, EventView::Reply(_)) => proceed(
            e,
            Flow::Persist { channel },
            ActionView::Remember { key, channel },
        ),
        (Flow::Persist { channel }, EventView::Stored) => proceed(
            e,
            Flow::Move { channel, created: true },
            ActionView::MoveClient { client: client.clid, channel },
        ),
        (Flow::Persist { channel }, EventView::StoreFailed) => proceed(
            e,
            Flow::Move { channel, created: true },
            ActionView::MoveClient { client: client.clid, channel },
        ),
        (Flow::Move { channel, created }, EventView::Reply(Ok(_))) => proceed(
            e,
            Flow::NotifyMoved { created },
            ActionView::SendTextMessage { client: client.clid, text: e.settings.move_to_channel },
        ),
        (Flow::Move { channel, created }, EventView::Reply(Err(code))) => if code == STALE_TARGET {
            (
                EngineView { phase: Phase::Serve(Flow::Forget), skip_wait: true, ..e },
                ActionView::Forget { key },
            )
        } else {
            turn_to(e, next as nat, Some(Outcome::Rejected(code)))
        },
        (Flow::Forget, EventView::Stored) => turn_to(e, next as nat, Some(Outcome::Stale)),
        (Flow::Forget, EventView::StoreFailed) => turn_to(e, next as nat, Some(Outcome::Stale)),
        (Flow::NotifyMoved { created }, EventView::Reply(_)) => if created {
            proceed(
                e,
                Flow::Return,
                ActionView::MoveClient { client: e.who.client_id, channel: client.cid },
            )
        } else {
            turn_to(e, next as nat, Some(Outcome::Moved))
        },
        (Flow::Return, EventView::Reply(_)) => turn_to(e, next as nat, Some(Outcome::Provisioned)),
        _ => halt(e, ExitReason::Unexpected),
    }
}

/// One step of an engine whose last outcome has been cleared.
pub open spec fn advance(e: EngineView, event: EventView) -> (EngineView, ActionView) {
    match e.phase {
        Phase::Identify => match event {
            EventView::Identity(Ok(who)) => (
                EngineView { phase: Phase::Describe, who, ..e },
                ActionView::QueryServerInfo,
            ),
            EventView::Identity(Err(_)) => halt(e, ExitReason::StartupFailed),
            _ => halt(e, ExitReason::Unexpected),
        },
        Phase::Describe => match event {
            EventView::Server(Ok(server_uid)) => (
                EngineView { phase: Phase::Wait, server_uid, ..e },
                ActionView::Wait { millis: e.settings.interval },
            ),
            EventView::Server(Err(_)) => halt(e, ExitReason::StartupFailed),
            _ => halt(e, ExitReason::Unexpected),
        },
        Phase::Wait => match event {
            EventView::Elapsed => (EngineView { phase: Phase::List, ..e }, ActionView::QueryClients),
            EventView::Cancelled => (EngineView { phase: Phase::Leave, ..e }, ActionView::Logout),
            _ => halt(e, ExitReason::Unexpected),
        },
        Phase::List => match event {
            EventView::Clients(Ok(clients)) => turn_to(EngineView { clients, ..e }, 0, None),
            EventView::Clients(Err(_)) => (
                EngineView { phase: Phase::Wait, ..e },
                ActionView::Wait { millis: e.settings.interval },
            ),
            _ => halt(e, ExitReason::Unexpected),
        },
        Phase::Serve(flow) => if e.cursor < e.clients.len() {
            serve(e, flow, event)
        } else {
            halt(e, ExitReason::Unexpected)
        },
        Phase::Leave => match event {
            EventView::Reply(Ok(_)) => halt(e, ExitReason::Finished),
            EventView::Reply(Err(_)) => halt(e, ExitReason::LogoutFailed),
            _ => halt(e, ExitReason::Unexpected),
        },
        Phase::Stopped(reason) => (e, ActionView::Exit(reason)),
    }
}

/// What the engine does with an event: its next state and its next action.
///
/// The outcome in the next state is that of the client whose service this
/// step ended, and `None` where it ended none.
pub open spec fn step_spec(e: EngineView, event: EventView) -> (EngineView, ActionView) {
    advance(EngineView { outcome: None, ..e }, event)
}

/// The state in which every engine begins.
pub open spec fn initial(settings: SettingsView) -> EngineView {
    EngineView {
        settings,
        phase: Phase::Identify,
        who: WhoAmIView { client_id: 0, client_database_id: 0 },
        server_uid: Seq::empty(),
        clients: Seq::empty(),
        cursor: 0,
        skip_wait: false,
        outcome: None,
    }
}

/// A copy of a list of permissions.
fn copy_permissions(list: &Vec<(u64, i64)>) -> (r: Vec<(u64, i64)>)
    ensures
        r@ == list@,
{
    let mut out: Vec<(u64, i64)> = Vec::new();
    let mut i: usize = 0;
    while i < list.len()
        invariant
            i <= list.len(),
            out@ == list@.take(i as int),
        decreases list.len() - i,
    {
        let (permission, value) = list[i];
        out.push((permission, value));
        assert(list@.take(i + 1) =~= list@.take(i as int).push(list@[i as int]));
        i += 1;
    }
    assert(list@.take(list.len() as int) =~= list@);
    out
}

impl Engine {
    /// A new engine, and the first thing to do.
    pub fn start(settings: Settings) -> (r: (Engine, Action))
        ensures
            r.0@ == initial(settings@),
            r.1@ == ActionView::WhoAmI,
    {
        let engine = Engine {
            settings,
            phase: Phase::Identify,
            who: WhoAmI::new(0, 0),
            server_uid: String::new(),
            clients: Vec::new(),
            cursor: 0,
            skip_wait: false,
            outcome: None,
        };
        assert(engine@.clients =~= Seq::empty());
        (engine, Action::WhoAmI)
    }

    /// What the engine waits for.
    pub fn phase(&self) -> (r: Phase)
        ensures
            r == self@.phase,
    {
        self.phase
    }

    /// How the service of a client ended in the last step, if it ended one.
    pub fn last_outcome(&self) -> (r: Option<Outcome>)
        ensures
            r == self@.outcome,
    {
        self.outcome
    }

    /// Whether the run has ended.
    pub fn is_stopped(&self) -> (r: bool)
        ensures
            r == (self@.phase is Stopped),
    {
        match self.phase {
            Phase::Stopped(_) => true,
            _ => false,
        }
    }

    fn monitors(&self, channel: i64) -> (r: bool)
        ensures
            r == self@.settings.monitor_channels.contains(channel),
    {
        let mut i: usize = 0;
        while i < self.settings.monitor_channels.len()
            invariant
                i <= self.settings.monitor_channels.len(),
                forall|j: int| 0 <= j < i ==> self.settings.monitor_channels@[j] != channel,
            decreases self.settings.monitor_channels.len() - i,
        {
            if self.settings.monitor_channels[i] == channel {
                return true;
            }
            i += 1;
        }
        false
    }

    fn serves(&self, at: usize) -> (r: bool)
        requires
            at < self.clients.len(),
        ensures
            r == eligible(self@.settings, self@.who, self@.clients[at as int]),
    {
        let client = &self.clients[at];
        client.client_database_id() != self.who.cldbid() && self.monitors(client.channel_id())
            && client.client_type() != CLIENT_TYPE_SERVICE
    }

    fn key_for(&self, at: usize) -> (r: String)
        requires
            at < self.clients.len(),
        ensures
            r@ == key_of(self@, at as int),
    {
        let client = &self.clients[at];
        let mut key = String::new();
        push_str(&mut key, "ts_autochannel_");
        push_decimal(&mut key, client.client_database_id());
        key.push('_');
        push_str(&mut key, self.server_uid.as_str());
        key.push('_');
        push_decimal(&mut key, client.channel_id());
        assert(key@ =~= key_of(self@, at as int));
        key
    }

    fn name_for(&self, at: usize, collisions: u32) -> (r: String)
        requires
            at < self.clients.len(),
        ensures
            r@ == candidate_name(self@.clients[at as int].client_nickname, collisions as nat),
    {
        let client = &self.clients[at];
        let mut name = String::new();
        push_str(&mut name, client.client_nickname());
        push_str(&mut name, "'s channel");
        let ghost base = name@;
        let mut i: u32 = 0;
        while i < collisions
            invariant
                i <= collisions,
                name@ == base + Seq::new(i as nat, |k: int| '1'),
            decreases collisions - i,
        {
            name.push('1');
            i += 1;
            assert(name@ =~= base + Seq::new(i as nat, |k: int| '1'));
        }
        assert(name@ =~= candidate_name(
            self@.clients[at as int].client_nickname,
            collisions as nat,
        ));
        name
    }

    fn halt(&mut self, reason: ExitReason) -> (action: Action)
        ensures
            (final(self)@, action@) == halt(old(self)@, reason),
    {
        self.phase = Phase::Stopped(reason);
        Action::Exit(reason)
    }

    fn proceed(&mut self, flow: Flow, action: Action) -> (r: Action)
        ensures
            (final(self)@, r@) == proceed(old(self)@, flow, action@),
    {
        self.phase = Phase::Serve(flow);
        action
    }

    fn turn_to(&mut self, from: usize, outcome: Option<Outcome>) -> (action: Action)
        requires
            from <= old(self).clients.len(),
        ensures
            (final(self)@, action@) == turn_to(old(self)@, from as nat, outcome),
    {
        let mut at: usize = from;
        let mut found = false;
        while at < self.clients.len() && !found
            invariant
                from <= at <= self.clients.len(),
                *self == *old(self),
                next_eligible(self@, from as nat) == next_eligible(self@, at as nat),
                found ==> at < self.clients.len() && eligible(
                    self@.settings,
                    self@.who,
                    self@.clients[at as int],
                ),
            decreases self.clients.len() - at + if found { 0int } else { 1int },
        {
            if self.serves(at) {
                found = true;
            } else {
                at += 1;
            }
        }
        assert(next_eligible(self@, from as nat) == at);
        self.outcome = outcome;
        self.cursor = at;
        if at < self.clients.len() {
            self.phase = Phase::Serve(Flow::Lookup);
            Action::Lookup { key: self.key_for(at) }
        } else if self.skip_wait {
            self.phase = Phase::List;
            self.skip_wait = false;
            Action::QueryClients
        } else {
            self.phase = Phase::Wait;
            Action::Wait { millis: self.settings.interval }
        }
    }

    fn serve(&mut self, flow: Flow, event: Event) -> (action: Action)
        requires
            old(self).cursor < old(self).clients.len(),
        ensures
            (final(self)@, action@) == serve(old(self)@, flow, event@),
    {
        let at: usize = self.cursor;
        let next: usize = at + 1;
        let clid: i64 = self.clients[at].client_id();
        let lobby: i64 = self.clients[at].channel_id();
        let account: i64 = self.clients[at].client_database_id();
        match (flow, event) {
            (Flow::Lookup, Event::Mapping(Some(channel))) => self.proceed(
                Flow::Move { channel, created: false },
                Action::MoveClient { client: clid, channel },
            ),
            (Flow::Lookup, Event::Mapping(None)) => {
                let text = self.settings.channel_not_found.clone();
                self.proceed(Flow::NotifyMissing, Action::SendTextMessage { client: clid, text })
            },
            (Flow::Lookup, Event::StoreFailed) => self.turn_to(
                next,
                Some(Outcome::StoreUnavailable),
            ),
            (Flow::NotifyMissing, Event::Reply(_)) => {
                let name = self.name_for(at, 0);
                self.proceed(
                    Flow::Create { collisions: 0 },
                    Action::CreateChannel { name, parent: lobby },
                )
            },
            (Flow::Create { collisions }, Event::Created(Ok(Some(created)))) => {
                let text = self.settings.create_channel.clone();
                self.proceed(
                    Flow::NotifyCreated { channel: created.cid() },
                    Action::SendTextMessage { client: clid, text },
                )
            },
            (Flow::Create { collisions }, Event::Created(Ok(None))) => self.turn_to(
                next,
                Some(Outcome::NoChannelId),
            ),
            (Flow::Create { collisions }, Event::Created(Err(e))) => {
                let code = e.code();
                if code != NAME_COLLISION {
                    self.turn_to(next, Some(Outcome::Rejected(code)))
                } else if collisions < NAME_ATTEMPTS - 1 {
                    let name = self.name_for(at, collisions + 1);
                    self.proceed(
                        Flow::Create { collisions: collisions + 1 },
                        Action::CreateChannel { name, parent: lobby },
                    )
                } else {
                    self.turn_to(next, Some(Outcome::Exhausted))
                }
            },
            (Flow::NotifyCreated { channel }, Event::Reply(_)) => {
                let group = self.settings.privilege_group;
                self.proceed(
                    Flow::Group { channel },
                    Action::SetClientChannelGroup { account, channel, group },
                )
            },
            (Flow::Group { channel }, Event::Reply(_)) => {
                let mut permissions: Vec<(u64, i64)> = Vec::new();
                permissions.push((BASELINE_PERMISSION, BASELINE_VALUE));
                assert(permissions@ =~= seq![(BASELINE_PERMISSION, BASELINE_VALUE)]);
                self.proceed(
                    Flow::Baseline { channel },
                    Action::AddChannelPermission { channel, permissions },
                )
            },
            (Flow::Baseline { channel }, Event::Reply(_)) => {
                let extra = match self.settings.channel_permissions.get(&lobby) {
                    Some(list) => Some(copy_permissions(list)),
                    None => None,
                };
                match extra {
                    Some(permissions) => self.proceed(
                        Flow::Extra { channel },
                        Action::AddChannelPermission { channel, permissions },
                    ),
                    None => {
                        let key = self.key_for(at);
                        self.proceed(Flow::Persist { channel }, Action::Remember { key, channel })
                    },
                }
            },
            (Flow::Extra { channel }, Event::Reply(_)) => {
                let key = self.key_for(at);
                self.proceed(Flow::Persist { channel }, Action::Remember { key, channel })
            },
            (Flow::Persist { channel }, Event::Stored) => self.proceed(
                Flow::Move { channel, created: true },
                Action::MoveClient { client: clid, channel },
            ),
            (Flow::Persist { channel }, Event::StoreFailed) => self.proceed(
                Flow::Move { channel, created: true },
                Action::MoveClient { client: clid, channel },
            ),
            (Flow::Move { channel, created }, Event::Reply(Ok(_))) => {
                let text = self.settings.move_to_channel.clone();
                self.proceed(
                    Flow::NotifyMoved { created },
                    Action::SendTextMessage { client: clid, text },
                )
            },
            (Flow::Move { channel, created }, Event::Reply(Err(e))) => {
                let code = e.code();
                if code == STALE_TARGET {
                    let key = self.key_for(at);
                    self.phase = Phase::Serve(Flow::Forget);
                    self.skip_wait = true;
                    Action::Forget { key }
                } else {
                    self.turn_to(next, Some(Outcome::Rejected(code)))
                }
            },
            (Flow::Forget, Event::Stored) => self.turn_to(next, Some(Outcome::Stale)),
            (Flow::Forget, Event::StoreFailed) => self.turn_to(next, Some(Outcome::Stale)),
            (Flow::NotifyMoved { created }, Event::Reply(_)) => {
                if created {
                    let own = self.who.clid();
                    self.proceed(Flow::Return, Action::MoveClient { client: own, channel: lobby })
                } else {
                    self.turn_to(next, Some(Outcome::Moved))
                }
            },
            (Flow::Return, Event::Reply(_)) => self.turn_to(next, Some(Outcome::Provisioned)),
            _ => self.halt(ExitReason::Unexpected),
        }
    }

    /// Takes what came of the last action and answers with the next one.
    pub fn step(&mut self, event: Event) -> (action: Action)
        ensures
            (final(self)@, action@) == step_spec(old(self)@, event@),
    {
        self.outcome = None;
        let phase = self.phase;
        match phase {
            Phase::Identify => match event {
                Event::Identity(Ok(who)) => {
                    self.who = who;
                    self.phase = Phase::Describe;
                    Action::QueryServerInfo
                },
                Event::Identity(Err(_)) => self.halt(ExitReason::StartupFailed),
                _ => self.halt(ExitReason::Unexpected),
            },
            Phase::Describe => match event {
                Event::Server(Ok(info)) => {
                    self.server_uid = info.virtualserver_unique_identifier().to_owned();
                    self.phase = Phase::Wait;
                    Action::Wait { millis: self.settings.interval }
                },
                Event::Server(Err(_)) => self.halt(ExitReason::StartupFailed),
                _ => self.halt(ExitReason::Unexpected),
            },
            Phase::Wait => match event {
                Event::Elapsed => {
                    self.phase = Phase::List;
                    Action::QueryClients
                },
                Event::Cancelled => {
                    self.phase = Phase::Leave;
                    Action::Logout
                },
                _ => self.halt(ExitReason::Unexpected),
            },
            Phase::List => match event {
                Event::Clients(Ok(clients)) => {
                    self.clients = clients;
                    self.turn_to(0, None)
                },
                Event::Clients(Err(_)) => {
                    self.phase = Phase::Wait;
                    Action::Wait { millis: self.settings.interval }
                },
                _ => self.halt(ExitReason::Unexpected),
            },
            Phase::Serve(flow) => {
                if self.cursor < self.clients.len() {
                    self.serve(flow, event)
                } else {
                    self.halt(ExitReason::Unexpected)
                }
            },
            Phase::Leave => match event {
                Event::Reply(Ok(_)) => self.halt(ExitReason::Finished),
                Event::Reply(Err(_)) => self.halt(ExitReason::LogoutFailed),
                _ => self.halt(ExitReason::Unexpected),
            },
            Phase::Stopped(reason) => Action::Exit(reason),
        }
    }
}

} // verus!
