//! The records that the server returns, the same on both transports.
//!
//! Every entity is read from a list of fields; an integer field is written on
//! the wire in decimal notation.

use vstd::prelude::*;
use crate::record::{field, find_field, int_field, int_of, FromQueryString};
use crate::text::{decimal, i64_to_string};

verus! {

/// The mathematical content of a [`WhoAmI`].
pub struct WhoAmIView {
    pub client_id: i64,
    pub client_database_id: i64,
}

/// The connection that the service itself holds on the server.
#[derive(Clone, Copy, Debug, Default)]
pub struct WhoAmI {
    client_id: i64,
    client_database_id: i64,
}

impl View for WhoAmI {
    type V = WhoAmIView;

    closed spec fn view(&self) -> WhoAmIView {
        WhoAmIView { client_id: self.client_id, client_database_id: self.client_database_id }
    }
}

impl WhoAmI {
    /// The identity with the given connection id and account id.
    pub fn new(client_id: i64, client_database_id: i64) -> (r: Self)
        ensures
            r@ == (WhoAmIView { client_id, client_database_id }),
    {
        WhoAmI { client_id, client_database_id }
    }

    /// The account id, which survives reconnects.
    pub fn cldbid(&self) -> (r: i64)
        ensures
            r == self@.client_database_id,
    {
        self.client_database_id
    }

    /// The connection id.
    pub fn clid(&self) -> (r: i64)
        ensures
            r == self@.client_id,
    {
        self.client_id
    }
}

impl FromQueryString for WhoAmI {
    open spec fn record(fields: Seq<(Seq<char>, Seq<char>)>) -> Option<WhoAmIView> {
        match (int_of(fields, "client_id"@), int_of(fields, "client_database_id"@)) {
            (Some(client_id), Some(client_database_id)) => Some(
                WhoAmIView { client_id, client_database_id },
            ),
            _ => None,
        }
    }

    fn from_fields(fields: &Vec<(String, String)>) -> (r: Option<Self>) {
        let client_id = int_field(fields, "client_id");
        let client_database_id = int_field(fields, "client_database_id");
        match (client_id, client_database_id) {
            (Some(client_id), Some(client_database_id)) => Some(
                WhoAmI { client_id, client_database_id },
            ),
            _ => None,
        }
    }
}

/// The mathematical content of a [`CreateChannel`].
pub struct CreateChannelView {
    pub cid: i64,
}

/// What the server answers when it has created a channel.
#[derive(Clone, Copy, Debug, Default)]
pub struct CreateChannel {
    cid: i64,
}

impl View for CreateChannel {
    type V = CreateChannelView;

    closed spec fn view(&self) -> CreateChannelView {
        CreateChannelView { cid: self.cid }
    }
}

impl CreateChannel {
    /// The answer that names the channel `cid`.
    pub fn new(cid: i64) -> (r: Self)
        ensures
            r@ == (CreateChannelView { cid }),
    {
        CreateChannel { cid }
    }

    /// The id of the new channel.
    pub fn cid(&self) -> (r: i64)
        ensures
            r == self@.cid,
    {
        self.cid
    }
}

impl FromQueryString for CreateChannel {
    open spec fn record(fields: Seq<(Seq<char>, Seq<char>)>) -> Option<CreateChannelView> {
        match int_of(fields, "cid"@) {
            Some(cid) => Some(CreateChannelView { cid }),
            None => None,
        }
    }

    fn from_fields(fields: &Vec<(String, String)>) -> (r: Option<Self>) {
        match int_field(fields, "cid") {
            Some(cid) => Some(CreateChannel { cid }),
            None => None,
        }
    }
}

/// The mathematical content of a [`Channel`].
pub struct ChannelView {
    pub cid: i64,
    pub pid: i64,
    pub channel_order: i64,
    pub channel_name: Seq<char>,
    pub total_clients: i64,
    pub channel_needed_subscribe_power: i64,
}

/// One channel of the server's channel list.
#[derive(Clone, Debug, Default)]
pub struct Channel {
    cid: i64,
    pid: i64,
    channel_order: i64,
    channel_name: String,
    total_clients: i64,
    channel_needed_subscribe_power: i64,
}

impl View for Channel {
    type V = ChannelView;

    closed spec fn view(&self) -> ChannelView {
        ChannelView {
            cid: self.cid,
            pid: self.pid,
            channel_order: self.channel_order,
            channel_name: self.channel_name@,
            total_clients: self.total_clients,
            channel_needed_subscribe_power: self.channel_needed_subscribe_power,
        }
    }
}

impl Channel {
    /// The channel with the given fields.
    pub fn new(
        cid: i64,
        pid: i64,
        channel_order: i64,
        channel_name: String,
        total_clients: i64,
        channel_needed_subscribe_power: i64,
    ) -> (r: Self)
        ensures
            r@ == (ChannelView {
                cid,
                pid,
                channel_order,
                channel_name: channel_name@,
                total_clients,
                channel_needed_subscribe_power,
            }),
    {
        Channel {
            cid,
            pid,
            channel_order,
            channel_name,
            total_clients,
            channel_needed_subscribe_power,
        }
    }

    /// The channel's id.
    pub fn cid(&self) -> (r: i64)
        ensures
            r == self@.cid,
    {
        self.cid
    }

    /// The id of the parent channel.
    pub fn pid(&self) -> (r: i64)
        ensures
            r == self@.pid,
    {
        self.pid
    }

    /// The channel's place among its siblings.
    pub fn channel_order(&self) -> (r: i64)
        ensures
            r == self@.channel_order,
    {
        self.channel_order
    }

    /// The channel's name.
    pub fn channel_name(&self) -> (r: &str)
        ensures
            r@ == self@.channel_name,
    {
        self.channel_name.as_str()
    }

    /// How many clients are in the channel.
    pub fn total_clients(&self) -> (r: i64)
        ensures
            r == self@.total_clients,
    {
        self.total_clients
    }

    /// The power a client needs to subscribe to the channel.
    pub fn channel_needed_subscribe_power(&self) -> (r: i64)
        ensures
            r == self@.channel_needed_subscribe_power,
    {
        self.channel_needed_subscribe_power
    }
}

impl FromQueryString for Channel {
    open spec fn record(fields: Seq<(Seq<char>, Seq<char>)>) -> Option<ChannelView> {
        match (
            int_of(fields, "cid"@),
            int_of(fields, "pid"@),
            int_of(fields, "channel_order"@),
            field(fields, "channel_name"@),
            int_of(fields, "total_clients"@),
            int_of(fields, "channel_needed_subscribe_power"@),
        ) {
            (
                Some(cid),
                Some(pid),
                Some(channel_order),
                Some(channel_name),
                Some(total_clients),
                Some(channel_needed_subscribe_power),
            ) => Some(
                ChannelView {
                    cid,
                    pid,
                    channel_order,
                    channel_name,
                    total_clients,
                    channel_needed_subscribe_power,
                },
            ),
            _ => None,
        }
    }

    fn from_fields(fields: &Vec<(String, String)>) -> (r: Option<Self>) {
        let cid = int_field(fields, "cid");
        let pid = int_field(fields, "pid");
        let channel_order = int_field(fields, "channel_order");
        let channel_name = find_field(fields, "channel_name");
        let total_clients = int_field(fields, "total_clients");
        let power = int_field(fields, "channel_needed_subscribe_power");
        match (cid, pid, channel_order, channel_name, total_clients, power) {
            (
                Some(cid),
                Some(pid),
                Some(channel_order),
                Some(channel_name),
                Some(total_clients),
                Some(channel_needed_subscribe_power),
            ) => Some(
                Channel {
                    cid,
                    pid,
                    channel_order,
                    channel_name: channel_name.clone(),
                    total_clients,
                    channel_needed_subscribe_power,
                },
            ),
            _ => None,
        }
    }
}

/// The mathematical content of a [`Client`].
pub struct ClientView {
    pub clid: i64,
    pub cid: i64,
    pub client_database_id: i64,
    pub client_type: i64,
    pub client_unique_identifier: Option<Seq<char>>,
    pub client_nickname: Seq<char>,
}

/// The client type of a service connection, as opposed to a person.
pub const CLIENT_TYPE_SERVICE: i64 = 1;

/// One connection of the server's client list.
///
/// The unique identifier is part of the record only where the listing was
/// asked to include it; every other field is required.
#[derive(Clone, Debug, Default)]
pub struct Client {
    clid: i64,
    cid: i64,
    client_database_id: i64,
    client_type: i64,
    client_unique_identifier: Option<String>,
    client_nickname: String,
}

impl View for Client {
    type V = ClientView;

    closed spec fn view(&self) -> ClientView {
        ClientView {
            clid: self.clid,
            cid: self.cid,
            client_database_id: self.client_database_id,
            client_type: self.client_type,
            client_unique_identifier: match self.client_unique_identifier {
                Some(uid) => Some(uid@),
                None => None,
            },
            client_nickname: self.client_nickname@,
        }
    }
}

impl Client {
    /// The client with the given fields.
    pub fn new(
        clid: i64,
        cid: i64,
        client_database_id: i64,
        client_type: i64,
        client_unique_identifier: Option<String>,
        client_nickname: String,
    ) -> (r: Self)
        ensures
            r@ == (ClientView {
                clid,
                cid,
                client_database_id,
                client_type,
                client_unique_identifier: match client_unique_identifier {
                    Some(uid) => Some(uid@),
                    None => None,
                },
                client_nickname: client_nickname@,
            }),
    {
        Client {
            clid,
            cid,
            client_database_id,
            client_type,
            client_unique_identifier,
            client_nickname,
        }
    }

    /// The connection id.
    pub fn client_id(&self) -> (r: i64)
        ensures
            r == self@.clid,
    {
        self.clid
    }

    /// The id of the channel that the client is in.
    pub fn channel_id(&self) -> (r: i64)
        ensures
            r == self@.cid,
    {
        self.cid
    }

    /// The account id, which survives reconnects.
    pub fn client_database_id(&self) -> (r: i64)
        ensures
            r == self@.client_database_id,
    {
        self.client_database_id
    }

    /// The kind of client: `0` for a person, [`CLIENT_TYPE_SERVICE`] for a
    /// service connection.
    pub fn client_type(&self) -> (r: i64)
        ensures
            r == self@.client_type,
    {
        self.client_type
    }

    /// The unique identifier, where the record holds one; else the account
    /// id in decimal notation, which identifies the account as well.
    pub fn client_unique_identifier(&self) -> (r: String)
        ensures
            r@ == match self@.client_unique_identifier {
                Some(uid) => uid,
                None => decimal(self@.client_database_id as int),
            },
    {
        match &self.client_unique_identifier {
            Some(uid) => uid.clone(),
            None => i64_to_string(self.client_database_id),
        }
    }

    /// The display name.
    pub fn client_nickname(&self) -> (r: &str)
        ensures
            r@ == self@.client_nickname,
    {
        self.client_nickname.as_str()
    }
}

impl FromQueryString for Client {
    open spec fn record(fields: Seq<(Seq<char>, Seq<char>)>) -> Option<ClientView> {
        match (
            int_of(fields, "clid"@),
            int_of(fields, "cid"@),
            int_of(fields, "client_database_id"@),
            int_of(fields, "client_type"@),
            field(fields, "client_nickname"@),
        ) {
            (
                Some(clid),
                Some(cid),
                Some(client_database_id),
                Some(client_type),
                Some(client_nickname),
            ) => Some(
                ClientView {
                    clid,
                    cid,
                    client_database_id,
                    client_type,
                    client_unique_identifier: field(fields, "client_unique_identifier"@),
                    client_nickname,
                },
            ),
            _ => None,
        }
    }

    fn from_fields(fields: &Vec<(String, String)>) -> (r: Option<Self>) {
        let clid = int_field(fields, "clid");
        let cid = int_field(fields, "cid");
        let client_database_id = int_field(fields, "client_database_id");
        let client_type = int_field(fields, "client_type");
        let client_nickname = find_field(fields, "client_nickname");
        let uid = find_field(fields, "client_unique_identifier");
        match (clid, cid, client_database_id, client_type, client_nickname) {
            (
                Some(clid),
                Some(cid),
                Some(client_database_id),
                Some(client_type),
                Some(client_nickname),
            ) => Some(
                Client {
                    clid,
                    cid,
                    client_database_id,
                    client_type,
                    client_unique_identifier: match uid {
                        Some(uid) => Some(uid.clone()),
                        None => None,
                    },
                    client_nickname: client_nickname.clone(),
                },
            ),
            _ => None,
        }
    }
}

/// The mathematical content of a [`ServerInfo`].
pub struct ServerInfoView {
    pub virtualserver_unique_identifier: Seq<char>,
}

/// What identifies the server instance, fetched once at startup.
#[derive(Clone, Debug)]
pub struct ServerInfo {
    virtualserver_unique_identifier: String,
}

impl View for ServerInfo {
    type V = ServerInfoView;

    closed spec fn view(&self) -> ServerInfoView {
        ServerInfoView { virtualserver_unique_identifier: self.virtualserver_unique_identifier@ }
    }
}

impl ServerInfo {
    /// The description of the server with the given unique identifier.
    pub fn new(virtualserver_unique_identifier: String) -> (r: Self)
        ensures
            r@ == (ServerInfoView {
                virtualserver_unique_identifier: virtualserver_unique_identifier@,
            }),
    {
        ServerInfo { virtualserver_unique_identifier }
    }

    /// The server's unique identifier.
    pub fn virtualserver_unique_identifier(&self) -> (r: &str)
        ensures
            r@ == self@.virtualserver_unique_identifier,
    {
        self.virtualserver_unique_identifier.as_str()
    }
}

impl FromQueryString for ServerInfo {
    open spec fn record(fields: Seq<(Seq<char>, Seq<char>)>) -> Option<ServerInfoView> {
        match field(fields, "virtualserver_unique_identifier"@) {
            Some(uid) => Some(ServerInfoView { virtualserver_unique_identifier: uid }),
            None => None,
        }
    }

    fn from_fields(fields: &Vec<(String, String)>) -> (r: Option<Self>) {
        match find_field(fields, "virtualserver_unique_identifier") {
            Some(uid) => Some(ServerInfo { virtualserver_unique_identifier: uid.clone() }),
            None => None,
        }
    }
}

} // verus!
