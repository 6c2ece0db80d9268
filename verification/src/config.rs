//! The configuration that the service is started with, and what it chooses
//! where a value is left out.

use vstd::prelude::*;

verus! {

/// The lobbies to watch: one, or several.
#[derive(Clone, Debug)]
pub enum Channels {
    Single(i64),
    Multiple(Vec<i64>),
}

impl Channels {
    /// The lobbies as a sequence.
    pub open spec fn ids(self) -> Seq<i64> {
        match self {
            Channels::Single(id) => seq![id],
            Channels::Multiple(ids) => ids@,
        }
    }

    /// The lobbies as a list.
    pub fn to_vec(&self) -> (r: Vec<i64>)
        ensures
            r@ == self.ids(),
    {
        match self {
            Channels::Single(id) => {
                let mut out: Vec<i64> = Vec::new();
                out.push(*id);
                assert(out@ =~= seq![*id]);
                out
            },
            Channels::Multiple(ids) => {
                let mut out: Vec<i64> = Vec::new();
                let mut i: usize = 0;
                while i < ids.len()
                    invariant
                        i <= ids.len(),
                        out@ == ids@.take(i as int),
                    decreases ids.len() - i,
                {
                    out.push(ids[i]);
                    assert(ids@.take(i + 1) =~= ids@.take(i as int).push(ids@[i as int]));
                    i += 1;
                }
                assert(ids@.take(ids.len() as int) =~= ids@);
                out
            },
        }
    }
}

/// The text of an optional setting, or of its default.
pub open spec fn text_or(value: Option<String>, default: Seq<char>) -> Seq<char> {
    match value {
        Some(text) => text@,
        None => default,
    }
}

fn text_or_default(value: &Option<String>, default: &str) -> (r: String)
    ensures
        r@ == text_or(*value, default@),
{
    match value {
        Some(text) => text.clone(),
        None => default.to_owned(),
    }
}

/// How to reach the REST transport.
#[derive(Clone, Debug)]
pub struct WebQuery {
    pub server: Option<String>,
    pub api_key: String,
}

impl WebQuery {
    /// The settings with the given base address and key.
    pub fn new(server: Option<String>, api_key: String) -> (r: Self)
        ensures
            r.server == server,
            r.api_key == api_key,
    {
        WebQuery { server, api_key }
    }

    /// The base address; `http://localhost:10080` where none is set.
    pub fn server(&self) -> (r: String)
        ensures
            r@ == text_or(self.server, "http://localhost:10080"@),
    {
        text_or_default(&self.server, "http://localhost:10080")
    }

    /// The key that the service asks for.
    pub fn api_key(&self) -> (r: &str)
        ensures
            r@ == self.api_key@,
    {
        self.api_key.as_str()
    }
}

/// How to reach the text transport.
#[derive(Clone, Debug)]
pub struct RawQuery {
    pub server: Option<String>,
    pub port: Option<u16>,
    pub user: String,
    pub password: String,
}

impl RawQuery {
    /// The settings with the given address, port, user and password.
    pub fn new(server: Option<String>, port: Option<u16>, user: String, password: String) -> (r:
        Self)
        ensures
            r.server == server,
            r.port == port,
            r.user == user,
            r.password == password,
    {
        RawQuery { server, port, user, password }
    }

    /// The address; `127.0.0.1` where none is set.
    pub fn server(&self) -> (r: String)
        ensures
            r@ == text_or(self.server, "127.0.0.1"@),
    {
        text_or_default(&self.server, "127.0.0.1")
    }

    /// The port; `10011` where none is set.
    pub fn port(&self) -> (r: u16)
        ensures
            r == match self.port {
                Some(port) => port,
                None => 10011u16,
            },
    {
        match self.port {
            Some(port) => port,
            None => 10011,
        }
    }

    /// The user to log in as.
    pub fn user(&self) -> (r: &str)
        ensures
            r@ == self.user@,
    {
        self.user.as_str()
    }

    /// The user's password.
    pub fn password(&self) -> (r: &str)
        ensures
            r@ == self.password@,
    {
        self.password.as_str()
    }
}

/// What the service does on the server.
#[derive(Clone, Debug)]
pub struct Server {
    pub server_id: Option<i64>,
    pub channel_id: Channels,
    pub privilege_group_id: i64,
    pub redis_server: Option<String>,
}

impl Server {
    /// The settings with the given virtual server, lobbies, privilege group
    /// and store address.
    pub fn new(
        server_id: Option<i64>,
        channel_id: Channels,
        privilege_group_id: i64,
        redis_server: Option<String>,
    ) -> (r: Self)
        ensures
            r.server_id == server_id,
            r.channel_id == channel_id,
            r.privilege_group_id == privilege_group_id,
            r.redis_server == redis_server,
    {
        Server { server_id, channel_id, privilege_group_id, redis_server }
    }

    /// The id of the virtual server; `1` where none is set.
    pub fn server_id(&self) -> (r: i64)
        ensures
            r == match self.server_id {
                Some(id) => id,
                None => 1i64,
            },
    {
        match self.server_id {
            Some(id) => id,
            None => 1,
        }
    }

    /// The lobbies to watch.
    pub fn channels(&self) -> (r: Vec<i64>)
        ensures
            r@ == self.channel_id.ids(),
    {
        self.channel_id.to_vec()
    }

    /// The privilege group that a user gets on the user's own channel.
    pub fn privilege_group_id(&self) -> (r: i64)
        ensures
            r == self.privilege_group_id,
    {
        self.privilege_group_id
    }

    /// The address of the mapping store; `redis://127.0.0.1` where none is
    /// set.
    pub fn redis_server(&self) -> (r: String)
        ensures
            r@ == text_or(self.redis_server, "redis://127.0.0.1"@),
    {
        text_or_default(&self.redis_server, "redis://127.0.0.1")
    }
}

/// What the service tells users.
#[derive(Clone, Debug)]
pub struct Message {
    pub channel_not_found: Option<String>,
    pub create_channel: Option<String>,
    pub move_to_channel: Option<String>,
}

impl Message {
    /// The three messages, each optional.
    pub fn new(
        channel_not_found: Option<String>,
        create_channel: Option<String>,
        move_to_channel: Option<String>,
    ) -> (r: Self)
        ensures
            r.channel_not_found == channel_not_found,
            r.create_channel == create_channel,
            r.move_to_channel == move_to_channel,
    {
        Message { channel_not_found, create_channel, move_to_channel }
    }

    /// What a user is told who has no channel yet.
    pub fn channel_not_found(&self) -> (r: String)
        ensures
            r@ == text_or(self.channel_not_found, "I can't find you channel."@),
    {
        text_or_default(&self.channel_not_found, "I can't find you channel.")
    }

    /// What a user is told whose channel was created.
    pub fn create_channel(&self) -> (r: String)
        ensures
            r@ == text_or(self.create_channel, "Your Channel has been created!"@),
    {
        text_or_default(&self.create_channel, "Your Channel has been created!")
    }

    /// What a user is told who was moved.
    pub fn move_to_channel(&self) -> (r: String)
        ensures
            r@ == text_or(self.move_to_channel, "You have been moved into your channel."@),
    {
        text_or_default(&self.move_to_channel, "You have been moved into your channel.")
    }
}

/// Settings that fit nowhere else.
#[derive(Clone, Debug)]
pub struct Misc {
    pub interval: Option<u64>,
}

impl Misc {
    /// The settings with the given interval.
    pub fn new(interval: Option<u64>) -> (r: Self)
        ensures
            r.interval == interval,
    {
        Misc { interval }
    }

    /// The wait between two cycles; `5` where none is set.
    pub fn interval(&self) -> (r: u64)
        ensures
            r == match self.interval {
                Some(interval) => interval,
                None => 5u64,
            },
    {
        match self.interval {
            Some(interval) => interval,
            None => 5,
        }
    }
}

/// The transport that a configuration asks for.
#[derive(Clone, Copy, Debug, PartialEq, Eq)]
pub enum ConnectMethod {
    /// The text transport.
    Raw,
    /// The REST transport.
    Web,
}

/// What is wrong with a configuration.
#[derive(Clone, Copy, Debug, PartialEq, Eq)]
pub enum ConfigError {
    /// It names neither a text transport nor a REST transport.
    NoTransport,
}

/// The whole configuration.
#[derive(Clone, Debug)]
pub struct Config {
    pub server: Server,
    pub misc: Misc,
    pub custom_message: Message,
    pub raw_query: Option<RawQuery>,
    pub web_query: Option<WebQuery>,
}

impl Config {
    /// The configuration made of the given parts.
    pub fn new(
        server: Server,
        misc: Misc,
        custom_message: Message,
        raw_query: Option<RawQuery>,
        web_query: Option<WebQuery>,
    ) -> (r: Self)
        ensures
            r.server == server,
            r.misc == misc,
            r.custom_message == custom_message,
            r.raw_query == raw_query,
            r.web_query == web_query,
    {
        Config { server, misc, custom_message, raw_query, web_query }
    }

    /// What the service does on the server.
    pub fn server(&self) -> (r: &Server)
        ensures
            *r == self.server,
    {
        &self.server
    }

    /// Settings that fit nowhere else.
    pub fn misc(&self) -> (r: &Misc)
        ensures
            *r == self.misc,
    {
        &self.misc
    }

    /// How to reach the text transport, if it is configured.
    pub fn raw_query(&self) -> (r: &Option<RawQuery>)
        ensures
            *r == self.raw_query,
    {
        &self.raw_query
    }

    /// How to reach the REST transport, if it is configured.
    pub fn web_query(&self) -> (r: &Option<WebQuery>)
        ensures
            *r == self.web_query,
    {
        &self.web_query
    }

    /// What the service tells users.
    pub fn message(&self) -> (r: &Message)
        ensures
            *r == self.custom_message,
    {
        &self.custom_message
    }

    /// The transport to use: the text transport where it is configured,
    /// else the REST transport; a configuration with neither is refused.
    pub fn connect_method(&self) -> (r: Result<ConnectMethod, ConfigError>)
        ensures
            self.raw_query is Some ==> r == Ok::<ConnectMethod, ConfigError>(ConnectMethod::Raw),
            self.raw_query is None && self.web_query is Some ==> r == Ok::<
                ConnectMethod,
                ConfigError,
            >(ConnectMethod::Web),
            self.raw_query is None && self.web_query is None ==> r == Err::<
                ConnectMethod,
                ConfigError,
            >(ConfigError::NoTransport),
    {
        if self.raw_query.is_some() {
            Ok(ConnectMethod::Raw)
        } else if self.web_query.is_some() {
            Ok(ConnectMethod::Web)
        } else {
            Err(ConfigError::NoTransport)
        }
    }
}

} // verus!
