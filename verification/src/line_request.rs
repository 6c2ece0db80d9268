//! Requests of the text protocol: one line for each operation of the
//! capability interface, a verb followed by `key=value` fields, ended by a
//! line feed and a carriage return.
//!
//! Text that a user or an operator chose is escaped before it enters a line;
//! numbers are written in decimal notation.

use vstd::prelude::*;
use crate::escape::{escape, escape_spec};
use crate::text::{decimal, ends_with, push_decimal, push_digits, push_str};

verus! {

/// What ends every request.
pub open spec fn terminator() -> Seq<char> {
    seq!['\n', '\r']
}

/// The request for the service's own identity.
pub open spec fn who_am_i_line() -> Seq<char> {
    "whoami"@ + terminator()
}

/// The request for the server's description.
pub open spec fn query_server_info_line() -> Seq<char> {
    "serverinfo"@ + terminator()
}

/// The request for the list of channels.
pub open spec fn query_channels_line() -> Seq<char> {
    "channellist"@ + terminator()
}

/// The request for the list of clients, with their unique identifiers.
pub open spec fn query_clients_line() -> Seq<char> {
    "clientlist -uid"@ + terminator()
}

/// The request that ends the session.
pub open spec fn logout_line() -> Seq<char> {
    "quit"@ + terminator()
}

/// The request that sends `text` to the client `clid`.
pub open spec fn send_text_message_line(clid: i64, text: Seq<char>) -> Seq<char> {
    "sendtextmessage targetmode=1 target="@ + decimal(clid as int) + " msg="@ + escape_spec(text)
        + terminator()
}

/// The request that creates the channel `name` under `pid`.
pub open spec fn create_channel_line(name: Seq<char>, pid: i64) -> Seq<char> {
    "channelcreate channel_name="@ + escape_spec(name) + " cpid="@ + decimal(pid as int)
        + " channel_codec_quality=6"@ + terminator()
}

/// The request that moves the client `clid` into `target_channel`.
pub open spec fn move_client_to_channel_line(clid: i64, target_channel: i64) -> Seq<char> {
    "clientmove clid="@ + decimal(clid as int) + " cid="@ + decimal(target_channel as int)
        + terminator()
}

/// The request that puts an account into a group on a channel.
pub open spec fn set_client_channel_group_line(
    client_database_id: i64,
    channel_id: i64,
    group_id: i64,
) -> Seq<char> {
    "setclientchannelgroup cgid="@ + decimal(group_id as int) + " cid="@ + decimal(
        channel_id as int,
    ) + " cldbid="@ + decimal(client_database_id as int) + terminator()
}

/// One permission with its value.
pub open spec fn permission_fields(permission: (u64, i64)) -> Seq<char> {
    "permid="@ + decimal(permission.0 as int) + " permvalue="@ + decimal(permission.1 as int)
}

/// The permissions of a request, joined by `|`.
pub open spec fn permission_list(permissions: Seq<(u64, i64)>) -> Seq<char>
    decreases permissions.len(),
{
    if permissions.len() == 0 {
        Seq::empty()
    } else if permissions.len() == 1 {
        permission_fields(permissions[0])
    } else {
        permission_list(permissions.drop_last()) + seq!['|'] + permission_fields(
            permissions.last(),
        )
    }
}

/// The request that sets permissions on a channel.
pub open spec fn add_channel_permission_line(
    target_channel: i64,
    permissions: Seq<(u64, i64)>,
) -> Seq<char> {
    "channeladdperm cid="@ + decimal(target_channel as int) + seq![' '] + permission_list(
        permissions,
    ) + terminator()
}

/// The request that logs a user in.
pub open spec fn login_line(user: Seq<char>, password: Seq<char>) -> Seq<char> {
    "login "@ + escape_spec(user) + seq![' '] + escape_spec(password) + terminator()
}

/// The request that selects a virtual server.
pub open spec fn select_server_line(server_id: i64) -> Seq<char> {
    "use "@ + decimal(server_id as int) + terminator()
}

/// Ends a request line.
fn finish(out: &mut String)
    ensures
        final(out)@ == old(out)@ + terminator(),
{
    out.push('\n');
    out.push('\r');
    assert(out@ =~= old(out)@ + terminator());
}

/// A request that is only a verb.
fn bare(verb: &str) -> (r: String)
    ensures
        r@ == verb@ + terminator(),
{
    let mut out = String::new();
    push_str(&mut out, verb);
    finish(&mut out);
    assert(out@ =~= verb@ + terminator());
    out
}

/// Builds the request for the service's own identity.
pub fn who_am_i() -> (r: String)
    ensures
        r@ == who_am_i_line(),
{
    bare("whoami")
}

/// Builds the request for the server's description.
pub fn query_server_info() -> (r: String)
    ensures
        r@ == query_server_info_line(),
{
    bare("serverinfo")
}

/// Builds the request for the list of channels.
pub fn query_channels() -> (r: String)
    ensures
        r@ == query_channels_line(),
{
    bare("channellist")
}

/// Builds the request for the list of clients.
pub fn query_clients() -> (r: String)
    ensures
        r@ == query_clients_line(),
{
    bare("clientlist -uid")
}

/// Builds the request that ends the session.
pub fn logout() -> (r: String)
    ensures
        r@ == logout_line(),
{
    bare("quit")
}

/// Builds the request that sends `text` to the client `clid`.
pub fn send_text_message(clid: i64, text: &str) -> (r: String)
    ensures
        r@ == send_text_message_line(clid, text@),
{
    let mut out = String::new();
    push_str(&mut out, "sendtextmessage targetmode=1 target=");
    push_decimal(&mut out, clid);
    push_str(&mut out, " msg=");
    let escaped = escape(text);
    push_str(&mut out, escaped.as_str());
    finish(&mut out);
    assert(out@ =~= send_text_message_line(clid, text@));
    out
}

/// Builds the request that creates the channel `name` under `pid`.
pub fn create_channel(name: &str, pid: i64) -> (r: String)
    ensures
        r@ == create_channel_line(name@, pid),
{
    let mut out = String::new();
    push_str(&mut out, "channelcreate channel_name=");
    let escaped = escape(name);
    push_str(&mut out, escaped.as_str());
    push_str(&mut out, " cpid=");
    push_decimal(&mut out, pid);
    push_str(&mut out, " channel_codec_quality=6");
    finish(&mut out);
    assert(out@ =~= create_channel_line(name@, pid));
    out
}

/// Builds the request that moves the client `clid` into `target_channel`.
pub fn move_client_to_channel(clid: i64, target_channel: i64) -> (r: String)
    ensures
        r@ == move_client_to_channel_line(clid, target_channel),
{
    let mut out = String::new();
    push_str(&mut out, "clientmove clid=");
    push_decimal(&mut out, clid);
    push_str(&mut out, " cid=");
    push_decimal(&mut out, target_channel);
    finish(&mut out);
    assert(out@ =~= move_client_to_channel_line(clid, target_channel));
    out
}

/// Builds the request that puts an account into a group on a channel.
pub fn set_client_channel_group(client_database_id: i64, channel_id: i64, group_id: i64) -> (r:
    String)
    ensures
        r@ == set_client_channel_group_line(client_database_id, channel_id, group_id),
{
    let mut out = String::new();
    push_str(&mut out, "setclientchannelgroup cgid=");
    push_decimal(&mut out, group_id);
    push_str(&mut out, " cid=");
    push_decimal(&mut out, channel_id);
    push_str(&mut out, " cldbid=");
    push_decimal(&mut out, client_database_id);
    finish(&mut out);
    assert(out@ =~= set_client_channel_group_line(client_database_id, channel_id, group_id));
    out
}

/// Appends one permission with its value.
fn push_permission(out: &mut String, permission: u64, value: i64)
    ensures
        final(out)@ == old(out)@ + permission_fields((permission, value)),
{
    push_str(out, "permid=");
    push_digits(out, permission);
    push_str(out, " permvalue=");
    push_decimal(out, value);
    assert(out@ =~= old(out)@ + permission_fields((permission, value)));
}

/// Builds the request that sets permissions on a channel.
pub fn add_channel_permission(target_channel: i64, permissions: &Vec<(u64, i64)>) -> (r: String)
    ensures
        r@ == add_channel_permission_line(target_channel, permissions@),
{
    let mut out = String::new();
    push_str(&mut out, "channeladdperm cid=");
    push_decimal(&mut out, target_channel);
    out.push(' ');
    let ghost head = out@;
    let mut i: usize = 0;
    assert(permissions@.take(0) =~= Seq::<(u64, i64)>::empty());
    assert(out@ =~= head + permission_list(permissions@.take(0)));
    while i < permissions.len()
        invariant
            i <= permissions.len(),
            out@ == head + permission_list(permissions@.take(i as int)),
        decreases permissions.len() - i,
    {
        let ghost before = permissions@.take(i as int);
        let ghost next = permissions@.take(i + 1);
        proof {
            assert(next.drop_last() =~= before);
            assert(next.last() == permissions@[i as int]);
        }
        if i > 0 {
            out.push('|');
        }
        let (permission, value) = permissions[i];
        push_permission(&mut out, permission, value);
        assert(out@ =~= head + permission_list(next));
        i += 1;
    }
    assert(permissions@.take(permissions.len() as int) =~= permissions@);
    finish(&mut out);
    assert(out@ =~= add_channel_permission_line(target_channel, permissions@));
    out
}

/// Builds the request that logs a user in.
pub fn login(user: &str, password: &str) -> (r: String)
    ensures
        r@ == login_line(user@, password@),
{
    let mut out = String::new();
    push_str(&mut out, "login ");
    let escaped_user = escape(user);
    push_str(&mut out, escaped_user.as_str());
    out.push(' ');
    let escaped_password = escape(password);
    push_str(&mut out, escaped_password.as_str());
    finish(&mut out);
    assert(out@ =~= login_line(user@, password@));
    out
}

/// Builds the request that selects a virtual server.
pub fn select_server(server_id: i64) -> (r: String)
    ensures
        r@ == select_server_line(server_id),
{
    let mut out = String::new();
    push_str(&mut out, "use ");
    push_decimal(&mut out, server_id);
    finish(&mut out);
    assert(out@ =~= select_server_line(server_id));
    out
}

/// Whether a request is ready to be written: it ends with the terminator.
pub open spec fn is_terminated(line: Seq<char>) -> bool {
    ends_with(line, terminator())
}

/// Tests whether a request ends with the terminator.
pub fn check_terminated(payload: &str) -> (r: bool)
    ensures
        r == is_terminated(payload@),
{
    let chars = crate::text::to_chars(payload);
    let mut end: Vec<char> = Vec::new();
    end.push('\n');
    end.push('\r');
    assert(end@ =~= terminator());
    if chars.len() < 2 {
        return false;
    }
    crate::text::matches_at(&chars, chars.len() - 2, &end)
}

/// Every request that this module builds ends with the terminator: a body
/// followed by the terminator is terminated.
pub proof fn law_requests_are_terminated(body: Seq<char>)
    ensures
        is_terminated(body + terminator()),
{
    let line = body + terminator();
    assert(line.subrange(line.len() - 2, line.len() as int) =~= terminator());
}

} // verus!
