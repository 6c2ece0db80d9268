//! What holds of every run of the reconciliation engine, proved from
//! [`step_spec`].

use vstd::prelude::*;
use crate::engine::{
    candidate_name,
    initial,
    key_of,
    next_eligible,
    step_spec,
    ActionView,
    EngineView,
    EventView,
    ExitReason,
    Flow,
    Outcome,
    Phase,
    SettingsView,
    NAME_ATTEMPTS,
    NAME_COLLISION,
    STALE_TARGET,
};

verus! {

/// An engine is sound where, whenever it serves a client, its cursor stands
/// on one.
pub open spec fn sound(e: EngineView) -> bool {
    e.phase is Serve ==> e.cursor < e.clients.len()
}

/// The position that the engine turns to lies in the list or just behind it,
/// and is not before the position it started from.
pub proof fn lemma_next_eligible_bounds(e: EngineView, from: nat)
    requires
        from <= e.clients.len(),
    ensures
        from <= next_eligible(e, from) <= e.clients.len(),
    decreases e.clients.len() - from,
{
    if from < e.clients.len() {
        lemma_next_eligible_bounds(e, from + 1);
    }
}

/// A new engine is sound, and no step makes a sound engine unsound: an engine
/// that was started and then only stepped never serves a client that is not
/// in its list.
pub proof fn law_engine_stays_sound(settings: SettingsView, e: EngineView, event: EventView)
    ensures
        sound(initial(settings)),
        sound(e) ==> sound(step_spec(e, event).0),
{
    if sound(e) {
        let cleared = EngineView { outcome: None, ..e };
        match e.phase {
            Phase::List => {
                if let EventView::Clients(Ok(clients)) = event {
                    lemma_next_eligible_bounds(EngineView { clients, ..cleared }, 0);
                }
            },
            Phase::Serve(_) => {
                lemma_next_eligible_bounds(cleared, e.cursor + 1);
            },
            _ => {},
        }
    }
}

/// The actions that the engine takes for the client under its cursor while
/// the events of `events` arrive in turn: those up to the step that ends the
/// client's service. The action of that last step already belongs to the next
/// client, or to the end of the cycle.
pub open spec fn service(e: EngineView, events: Seq<EventView>) -> Seq<ActionView>
    decreases events.len(),
{
    if events.len() == 0 || !(e.phase is Serve) || e.cursor >= e.clients.len() {
        Seq::empty()
    } else {
        let (next, action) = step_spec(e, events[0]);
        if next.phase is Serve && next.outcome is None {
            seq![action] + service(next, events.drop_first())
        } else {
            Seq::empty()
        }
    }
}

/// What the engine may do for a client whose mapping the store holds: move
/// the client into the mapped channel, tell the client so, and forget the
/// mapping.
pub open spec fn reuses(e: EngineView, channel: i64, action: ActionView) -> bool {
    let client = e.clients[e.cursor as int];
    ||| action == (ActionView::MoveClient { client: client.clid, channel })
    ||| action == (ActionView::SendTextMessage {
        client: client.clid,
        text: e.settings.move_to_channel,
    })
    ||| action == (ActionView::Forget { key: key_of(e, e.cursor as int) })
}

/// Whether the engine serves its client through the mapping to `channel`.
pub open spec fn reusing(e: EngineView, channel: i64) -> bool {
    &&& e.cursor < e.clients.len()
    &&& e.phase == Phase::Serve(Flow::Move { channel, created: false }) || e.phase == Phase::Serve(
        Flow::NotifyMoved { created: false },
    ) || e.phase == Phase::Serve(Flow::Forget)
}

proof fn lemma_reusing_only_reuses(e: EngineView, channel: i64, events: Seq<EventView>)
    requires
        reusing(e, channel),
    ensures
        forall|i: int|
            0 <= i < service(e, events).len() ==> reuses(e, channel, #[trigger] service(e, events)[i]),
    decreases events.len(),
{
    if events.len() > 0 {
        let (next, action) = step_spec(e, events[0]);
        if next.phase is Serve && next.outcome is None {
            assert(reusing(next, channel));
            assert(reuses(e, channel, action));
            assert(next.clients == e.clients && next.cursor == e.cursor && next.settings
                == e.settings && next.server_uid == e.server_uid);
            lemma_reusing_only_reuses(next, channel, events.drop_first());
            let rest = service(next, events.drop_first());
            assert forall|i: int| 0 <= i < service(e, events).len() implies reuses(
                e,
                channel,
                #[trigger] service(e, events)[i],
            ) by {
                if i > 0 {
                    assert(service(e, events)[i] == rest[i - 1]);
                    assert(reuses(next, channel, rest[i - 1]));
                }
            }
        }
    }
}

/// For a client whose mapping the store holds, the engine's first action is
/// to move the client into the mapped channel, and whatever the server and
/// the store answer, all it ever does for the client is to move it there, to
/// tell it so, and to forget the mapping. It never asks for a channel to be
/// created. The move is asked for in every cycle, whether or not the client
/// is already in its channel.
pub proof fn law_mapped_client_is_only_moved(e: EngineView, channel: i64, events: Seq<EventView>)
    requires
        e.phase == Phase::Serve(Flow::Lookup),
        e.cursor < e.clients.len(),
        events.len() > 0,
        events[0] == EventView::Mapping(Some(channel)),
    ensures
        service(e, events).len() >= 1,
        service(e, events)[0] == (ActionView::MoveClient {
            client: e.clients[e.cursor as int].clid,
            channel,
        }),
        forall|i: int|
            0 <= i < service(e, events).len() ==> reuses(e, channel, #[trigger] service(e, events)[i]),
        forall|i: int|
            0 <= i < service(e, events).len() ==> !(#[trigger] service(e, events)[i] is CreateChannel),
{
    let (next, action) = step_spec(e, events[0]);
    assert(reusing(next, channel));
    lemma_reusing_only_reuses(next, channel, events.drop_first());
    let rest = service(next, events.drop_first());
    assert(service(e, events) == seq![action] + rest);
    assert forall|i: int| 0 <= i < service(e, events).len() implies reuses(
        e,
        channel,
        #[trigger] service(e, events)[i],
    ) by {
        if i > 0 {
            assert(service(e, events)[i] == rest[i - 1]);
            assert(reuses(next, channel, rest[i - 1]));
        }
    }
}

/// `count` answers that the name is taken.
pub open spec fn collisions(count: nat) -> Seq<EventView> {
    Seq::new(count, |i: int| EventView::Created(Err(NAME_COLLISION)))
}

/// The attempts to create the channel of `e`'s client under the names of
/// `first`, `first + 1`, up to `first + count - 1` collisions.
pub open spec fn attempts(e: EngineView, first: nat, count: nat) -> Seq<ActionView> {
    Seq::new(
        count,
        |i: int|
            ActionView::CreateChannel {
                name: candidate_name(e.clients[e.cursor as int].client_nickname, first + i as nat),
                parent: e.clients[e.cursor as int].cid,
            },
    )
}

proof fn lemma_collisions_retry(e: EngineView, seen: u32, count: nat)
    requires
        e.phase == Phase::Serve(Flow::Create { collisions: seen }),
        e.cursor < e.clients.len(),
        seen + count < NAME_ATTEMPTS,
    ensures
        service(e, collisions(count)) == attempts(e, (seen + 1) as nat, count),
    decreases count,
{
    let events = collisions(count);
    if count == 0 {
        assert(service(e, events) =~= attempts(e, (seen + 1) as nat, 0));
    } else {
        let (next, action) = step_spec(e, events[0]);
        assert(events.drop_first() =~= collisions((count - 1) as nat));
        lemma_collisions_retry(next, (seen + 1) as u32, (count - 1) as nat);
        assert(service(e, events) =~= attempts(e, (seen + 1) as nat, count));
    }
}

/// Once the client was told that it has no channel, and while the server
/// answers that the name is taken, the engine tries the client's name
/// followed by `'s channel`, then the same with `1` appended, then with `11`,
/// and so on: the attempt after `n` collisions appends `n` ones, and nothing
/// else is done in between. This holds up to the last attempt that the engine
/// makes, the one after `NAME_ATTEMPTS - 1` collisions.
pub proof fn law_collisions_append_ones(e: EngineView, reply: Result<(), i32>, count: nat)
    requires
        e.phase == Phase::Serve(Flow::NotifyMissing),
        e.cursor < e.clients.len(),
        count < NAME_ATTEMPTS,
    ensures
        service(e, seq![EventView::Reply(reply)] + collisions(count)) == attempts(e, 0, count + 1),
{
    let events = seq![EventView::Reply(reply)] + collisions(count);
    let (next, action) = step_spec(e, events[0]);
    assert(events.drop_first() =~= collisions(count));
    lemma_collisions_retry(next, 0, count);
    assert(service(e, events) =~= attempts(e, 0, count + 1));
}

/// Every name that is tried after a collision is the name tried before with
/// one `1` appended, so that no name is tried twice.
pub proof fn law_names_only_grow(nickname: Seq<char>, collisions: nat)
    ensures
        candidate_name(nickname, collisions + 1) == candidate_name(nickname, collisions).push('1'),
        candidate_name(nickname, collisions).len() == nickname.len() + "'s channel"@.len()
            + collisions,
{
    assert(candidate_name(nickname, collisions + 1) =~= candidate_name(nickname, collisions).push(
        '1',
    ));
}

/// The engine gives a client up once `NAME_ATTEMPTS` names were found taken:
/// it reports the client as exhausted and asks for no further channel.
pub proof fn law_collisions_are_bounded(e: EngineView)
    requires
        e.phase == Phase::Serve(Flow::Create { collisions: (NAME_ATTEMPTS - 1) as u32 }),
        e.cursor < e.clients.len(),
    ensures
        step_spec(e, EventView::Created(Err(NAME_COLLISION))).0.outcome == Some(Outcome::Exhausted),
        !(step_spec(e, EventView::Created(Err(NAME_COLLISION))).1 is CreateChannel),
{
}

/// What the mapping store holds once the driver has performed `action`.
pub open spec fn store_after(store: Map<Seq<char>, i64>, action: ActionView) -> Map<
    Seq<char>,
    i64,
> {
    match action {
        ActionView::Remember { key, channel } => store.insert(key, channel),
        ActionView::Forget { key } => store.remove(key),
        _ => store,
    }
}

/// What the mapping store answers to a lookup.
pub open spec fn lookup(store: Map<Seq<char>, i64>, key: Seq<char>) -> EventView {
    if store.contains_key(key) {
        EventView::Mapping(Some(store[key]))
    } else {
        EventView::Mapping(None)
    }
}

/// When the server answers a move with the code of a target that no longer
/// exists, the engine asks for the client's mapping to be deleted, moves
/// nobody, and marks the cycle so that the next one starts without a wait.
/// Once the store has done so, a later lookup of the same key finds nothing,
/// and the engine treats the client as one without a channel: it tells the
/// client so and goes on to create one.
pub proof fn law_stale_mapping_is_forgotten(
    e: EngineView,
    channel: i64,
    created: bool,
    store: Map<Seq<char>, i64>,
    later: EngineView,
)
    requires
        e.phase == Phase::Serve(Flow::Move { channel, created }),
        e.cursor < e.clients.len(),
        later.phase == Phase::Serve(Flow::Lookup),
        later.cursor < later.clients.len(),
        key_of(later, later.cursor as int) == key_of(e, e.cursor as int),
    ensures
        ({
            let (next, action) = step_spec(e, EventView::Reply(Err(STALE_TARGET)));
            let key = key_of(e, e.cursor as int);
            let healed = store_after(store, action);
            let (retry, first) = step_spec(later, lookup(healed, key));
            &&& action == (ActionView::Forget { key })
            &&& next.phase == Phase::Serve(Flow::Forget)
            &&& next.skip_wait
            &&& !healed.contains_key(key)
            &&& lookup(healed, key) == EventView::Mapping(None)
            &&& retry.phase == Phase::Serve(Flow::NotifyMissing)
            &&& first == (ActionView::SendTextMessage {
                client: later.clients[later.cursor as int].clid,
                text: later.settings.channel_not_found,
            })
        }),
{
}

/// A cycle in which a stale mapping was found is followed by the next one at
/// once: when the engine has no client left to serve, it asks for the list of
/// clients again instead of waiting, and does so once.
pub proof fn law_stale_cycle_skips_one_wait(e: EngineView, event: EventView)
    requires
        e.phase == Phase::Serve(Flow::Forget),
        e.cursor < e.clients.len(),
        e.skip_wait,
        event == EventView::Stored || event == EventView::StoreFailed,
        next_eligible(e, e.cursor + 1) >= e.clients.len(),
    ensures
        step_spec(e, event).1 == ActionView::QueryClients,
        step_spec(e, event).0.phase == Phase::List,
        !step_spec(e, event).0.skip_wait,
        step_spec(e, event).0.outcome == Some(Outcome::Stale),
{
    let cleared = EngineView { outcome: None, ..e };
    assert(next_eligible(cleared, e.cursor + 1) == next_eligible(e, e.cursor + 1)) by {
        lemma_next_eligible_ignores_outcome(e, e.cursor + 1);
    }
}

proof fn lemma_next_eligible_ignores_outcome(e: EngineView, from: nat)
    ensures
        next_eligible(EngineView { outcome: None, ..e }, from) == next_eligible(e, from),
    decreases e.clients.len() - from,
{
    if from < e.clients.len() {
        lemma_next_eligible_ignores_outcome(e, from + 1);
    }
}

/// A run that has ended stays ended: every further step answers with the
/// same exit.
pub proof fn law_stopped_is_final(e: EngineView, reason: ExitReason, event: EventView)
    requires
        e.phase == Phase::Stopped(reason),
    ensures
        step_spec(e, event).1 == ActionView::Exit(reason),
        step_spec(e, event).0.phase == Phase::Stopped(reason),
{
}

} // verus!
