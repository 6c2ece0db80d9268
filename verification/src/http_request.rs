//! Requests of the REST transport: for each operation of the capability
//! interface its name and its parameters, which travel as query parameters.
//!
//! Numbers are written in decimal notation. Text goes in as it is: making it
//! safe for an address is the work of whoever sends the request.

use vstd::prelude::*;
use crate::record::pairs_view;
use crate::text::{decimal, i64_to_string, u64_to_string};

verus! {

/// The mathematical content of an [`HttpRequest`].
pub struct HttpRequestView {
    pub method: Seq<char>,
    pub payload: Seq<(Seq<char>, Seq<char>)>,
}

/// One request: the name of the operation and its parameters in order.
#[derive(Clone, Debug)]
pub struct HttpRequest {
    pub method: String,
    pub payload: Vec<(String, String)>,
}

impl View for HttpRequest {
    type V = HttpRequestView;

    open spec fn view(&self) -> HttpRequestView {
        HttpRequestView { method: self.method@, payload: pairs_view(self.payload@) }
    }
}

/// A request without parameters.
pub open spec fn bare_request(method: Seq<char>) -> HttpRequestView {
    HttpRequestView { method, payload: Seq::empty() }
}

/// The parameters that name permissions and their values, two for each.
pub open spec fn permission_parameters(permissions: Seq<(u64, i64)>) -> Seq<
    (Seq<char>, Seq<char>),
>
    decreases permissions.len(),
{
    if permissions.len() == 0 {
        Seq::empty()
    } else {
        permission_parameters(permissions.drop_last()).push(
            ("permid"@, decimal(permissions.last().0 as int)),
        ).push(("permvalue"@, decimal(permissions.last().1 as int)))
    }
}

fn bare(method: &str) -> (r: HttpRequest)
    ensures
        r@ == bare_request(method@),
{
    let request = HttpRequest { method: method.to_owned(), payload: Vec::new() };
    assert(pairs_view(request.payload@) =~= Seq::empty());
    request
}

fn text_parameter(key: &str, value: &str) -> (r: (String, String))
    ensures
        r.0@ == key@,
        r.1@ == value@,
{
    (key.to_owned(), value.to_owned())
}

fn number_parameter(key: &str, value: i64) -> (r: (String, String))
    ensures
        r.0@ == key@,
        r.1@ == decimal(value as int),
{
    (key.to_owned(), i64_to_string(value))
}

/// The request for the service's own identity.
pub fn who_am_i() -> (r: HttpRequest)
    ensures
        r@ == bare_request("whoami"@),
{
    bare("whoami")
}

/// The request for the server's description.
pub fn query_server_info() -> (r: HttpRequest)
    ensures
        r@ == bare_request("serverinfo"@),
{
    bare("serverinfo")
}

/// The request for the list of channels.
pub fn query_channels() -> (r: HttpRequest)
    ensures
        r@ == bare_request("channellist"@),
{
    bare("channellist")
}

/// The request for the list of clients.
pub fn query_clients() -> (r: HttpRequest)
    ensures
        r@ == bare_request("clientlist"@),
{
    bare("clientlist")
}

/// The request that sends `text` to the client `clid`.
pub fn send_text_message(clid: i64, text: &str) -> (r: HttpRequest)
    ensures
        r@ == (HttpRequestView {
            method: "sendtextmessage"@,
            payload: seq![
                ("targetmode"@, "1"@),
                ("target"@, decimal(clid as int)),
                ("msg"@, text@),
            ],
        }),
{
    let mut payload: Vec<(String, String)> = Vec::new();
    payload.push(text_parameter("targetmode", "1"));
    payload.push(number_parameter("target", clid));
    payload.push(text_parameter("msg", text));
    assert(pairs_view(payload@) =~= seq![
        ("targetmode"@, "1"@),
        ("target"@, decimal(clid as int)),
        ("msg"@, text@),
    ]);
    HttpRequest { method: "sendtextmessage".to_owned(), payload }
}

/// The request that creates the channel `name` under `pid`.
pub fn create_channel(name: &str, pid: i64) -> (r: HttpRequest)
    ensures
        r@ == (HttpRequestView {
            method: "channelcreate"@,
            payload: seq![
                ("channel_name"@, name@),
                ("cpid"@, decimal(pid as int)),
                ("channel_codec_quality"@, "6"@),
            ],
        }),
{
    let mut payload: Vec<(String, String)> = Vec::new();
    payload.push(text_parameter("channel_name", name));
    payload.push(number_parameter("cpid", pid));
    payload.push(text_parameter("channel_codec_quality", "6"));
    assert(pairs_view(payload@) =~= seq![
        ("channel_name"@, name@),
        ("cpid"@, decimal(pid as int)),
        ("channel_codec_quality"@, "6"@),
    ]);
    HttpRequest { method: "channelcreate".to_owned(), payload }
}

/// The request that moves the client `clid` into `target_channel`.
pub fn move_client_to_channel(clid: i64, target_channel: i64) -> (r: HttpRequest)
    ensures
        r@ == (HttpRequestView {
            method: "clientmove"@,
            payload: seq![
                ("clid"@, decimal(clid as int)),
                ("cid"@, decimal(target_channel as int)),
            ],
        }),
{
    let mut payload: Vec<(String, String)> = Vec::new();
    payload.push(number_parameter("clid", clid));
    payload.push(number_parameter("cid", target_channel));
    assert(pairs_view(payload@) =~= seq![
        ("clid"@, decimal(clid as int)),
        ("cid"@, decimal(target_channel as int)),
    ]);
    HttpRequest { method: "clientmove".to_owned(), payload }
}

/// The request that puts an account into a group on a channel.
pub fn set_client_channel_group(client_database_id: i64, channel_id: i64, group_id: i64) -> (r:
    HttpRequest)
    ensures
        r@ == (HttpRequestView {
            method: "setclientchannelgroup"@,
            payload: seq![
                ("cgid"@, decimal(group_id as int)),
                ("cid"@, decimal(channel_id as int)),
                ("cldbid"@, decimal(client_database_id as int)),
            ],
        }),
{
    let mut payload: Vec<(String, String)> = Vec::new();
    payload.push(number_parameter("cgid", group_id));
    payload.push(number_parameter("cid", channel_id));
    payload.push(number_parameter("cldbid", client_database_id));
    assert(pairs_view(payload@) =~= seq![
        ("cgid"@, decimal(group_id as int)),
        ("cid"@, decimal(channel_id as int)),
        ("cldbid"@, decimal(client_database_id as int)),
    ]);
    HttpRequest { method: "setclientchannelgroup".to_owned(), payload }
}

/// The request that sets permissions on a channel.
pub fn add_channel_permission(target_channel: i64, permissions: &Vec<(u64, i64)>) -> (r:
    HttpRequest)
    ensures
        r@ == (HttpRequestView {
            method: "channeladdperm"@,
            payload: seq![("cid"@, decimal(target_channel as int))] + permission_parameters(
                permissions@,
            ),
        }),
{
    let mut payload: Vec<(String, String)> = Vec::new();
    payload.push(number_parameter("cid", target_channel));
    let ghost head = seq![("cid"@, decimal(target_channel as int))];
    let mut i: usize = 0;
    assert(permissions@.take(0) =~= Seq::<(u64, i64)>::empty());
    assert(pairs_view(payload@) =~= head + permission_parameters(permissions@.take(0)));
    while i < permissions.len()
        invariant
            i <= permissions.len(),
            pairs_view(payload@) == head + permission_parameters(permissions@.take(i as int)),
        decreases permissions.len() - i,
    {
        let ghost before = pairs_view(payload@);
        proof {
            assert(permissions@.take(i + 1).drop_last() =~= permissions@.take(i as int));
            assert(permissions@.take(i + 1).last() == permissions@[i as int]);
        }
        let (permission, value) = permissions[i];
        payload.push(("permid".to_owned(), u64_to_string(permission)));
        payload.push(number_parameter("permvalue", value));
        assert(pairs_view(payload@) =~= before.push(("permid"@, decimal(permission as int))).push(
            ("permvalue"@, decimal(value as int)),
        ));
        assert(pairs_view(payload@) =~= head + permission_parameters(permissions@.take(i + 1)));
        i += 1;
    }
    assert(permissions@.take(permissions.len() as int) =~= permissions@);
    HttpRequest { method: "channeladdperm".to_owned(), payload }
}

} // verus!
