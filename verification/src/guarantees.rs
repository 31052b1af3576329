//! What holds of every session, whatever it is sent: stated over the step
//! functions of the session module and proved here, first of one step, then
//! of whole histories.

use crate::error::DecodeError;
use crate::message::{chat, notice, ChatMessageView, SERVER_USERNAME};
use crate::notices::{confirmation_text, decode_failure_text, rejection_text};
use crate::registration::{is_display_name, name_fault};
use crate::relay::{carries_out, ActionView};
use crate::session::{
    activated, bus_step, client_step, fresh, is_own_echo, step, terminated, well_formed,
    BusEventView, ClientInputView, Delivery, EventView, ReactionView, SessionStateView,
    SessionView,
};
use crate::text::{eq_ignoring_ascii_case, lemma_trimmed_is_tight, trimmed};
use vstd::prelude::*;

verus! {

/// The state of a session that started as `s` and has taken `events`, first
/// to last.
pub open spec fn run(s: SessionView, events: Seq<EventView>) -> SessionView
    decreases events.len(),
{
    if events.len() == 0 {
        s
    } else {
        step(run(s, events.drop_last()), events.last()).0
    }
}

/// How a session that started as `s` reacts to `events[k]`, having taken the
/// events before it.
pub open spec fn reaction_at(s: SessionView, events: Seq<EventView>, k: int) -> ReactionView {
    step(run(s, events.take(k)), events[k]).1
}

/// How far a session has come: 0 before registration, 1 while active, 2 when
/// over.
pub open spec fn progress(state: SessionStateView) -> nat {
    match state {
        SessionStateView::Unregistered => 0,
        SessionStateView::Active { .. } => 1,
        SessionStateView::Terminated => 2,
    }
}

/// Whether a session in state `before` may later be in state `after`: it
/// stays bound to its connection, it never falls back, and once registered it
/// keeps its display name for as long as it is active.
pub open spec fn follows(before: SessionView, after: SessionView) -> bool {
    &&& after.connection_id == before.connection_id
    &&& progress(before.state) <= progress(after.state)
    &&& before.state is Active && after.state is Active ==> after.state == before.state
}

/// Whether `reaction` tells the client that it is now registered as `name`.
pub open spec fn confirms(reaction: ReactionView, name: Seq<char>) -> bool {
    reaction == (ReactionView::Deliver {
        envelope: notice(confirmation_text(name)),
        purpose: Delivery::Confirmation,
    })
}

/// Every step leads forward: no event takes a session back to an earlier
/// state, changes the connection it is bound to, or renames it.
pub proof fn lemma_steps_lead_forward(s: SessionView, event: EventView)
    ensures
        follows(s, step(s, event).0),
{
}

/// A new session is well formed, and every step keeps a session so: the
/// display name of an active session always meets the rules.
pub proof fn lemma_steps_keep_well_formed(s: SessionView, event: EventView)
    requires
        well_formed(s),
    ensures
        well_formed(fresh(s.connection_id)),
        well_formed(step(s, event).0),
{
    match event {
        EventView::FromClient(ClientInputView::Payload(Ok(content))) => {
            lemma_trimmed_is_tight(content);
        },
        _ => {},
    }
}

/// A terminated session stays terminated and asks for nothing.
pub proof fn lemma_terminated_is_final(s: SessionView, event: EventView)
    requires
        s.state is Terminated,
    ensures
        step(s, event) == (s, ReactionView::Nothing),
{
}

/// Self-echo suppression: an envelope that a session publishes is never
/// delivered to that session's own client, in whatever state the session is
/// when the envelope comes back from the bus.
pub proof fn lemma_no_self_echo(
    publisher: SessionView,
    input: ClientInputView,
    later: SessionView,
    envelope: ChatMessageView,
)
    requires
        client_step(publisher, input).1 == (ReactionView::Publish { envelope }),
        later.connection_id == publisher.connection_id,
    ensures
        is_own_echo(later.connection_id, envelope),
        bus_step(later, BusEventView::Envelope(envelope)) == (later, ReactionView::Nothing),
        forall|action: ActionView|
            carries_out(bus_step(later, BusEventView::Envelope(envelope)).1, action)
                ==> action is Nothing,
{
}

/// No chat before registration: whatever a session that is not active is
/// sent, it publishes nothing. Put the other way round, a publication comes
/// only from an active session whose client sent a readable payload; it
/// carries that session's connection and name, and leaves the session as it
/// was.
pub proof fn lemma_only_active_sessions_publish(s: SessionView, event: EventView)
    ensures
        !(s.state is Active) ==> !(step(s, event).1 is Publish),
        step(s, event).1 matches ReactionView::Publish { envelope } ==> {
            &&& s.state matches SessionStateView::Active { display_name }
            &&& event matches EventView::FromClient(ClientInputView::Payload(Ok(content)))
            &&& envelope == chat(s.connection_id, display_name, content)
            &&& step(s, event).0 == s
        },
{
}

/// The reserved identity: what a session publishes names its own connection
/// and a display name that meets the rules, so it never goes by the relay's
/// name and is never taken for a notice.
pub proof fn lemma_clients_cannot_pose_as_the_relay(
    s: SessionView,
    event: EventView,
    envelope: ChatMessageView,
)
    requires
        well_formed(s),
        step(s, event).1 == (ReactionView::Publish { envelope }),
    ensures
        envelope.sender_addr == Some(s.connection_id),
        envelope.username matches Some(name) && is_display_name(name) && !eq_ignoring_ascii_case(
            name,
            SERVER_USERNAME@,
        ),
        forall|content: Seq<char>| envelope != notice(content),
{
}

/// Registration: a session that is not yet registered and is sent a readable
/// payload takes the payload, trimmed, as the proposed display name. A name
/// that breaks a rule is answered with a rejection and changes nothing; any
/// other name is answered with a confirmation and makes the session active
/// under it.
pub proof fn lemma_registration(s: SessionView, content: Seq<char>)
    requires
        s.state is Unregistered,
    ensures
        name_fault(trimmed(content)) is Some ==> client_step(
            s,
            ClientInputView::Payload(Ok(content)),
        ) == (
            s,
            ReactionView::Deliver {
                envelope: notice(rejection_text(trimmed(content))),
                purpose: Delivery::Rejection,
            },
        ),
        name_fault(trimmed(content)) is None ==> client_step(
            s,
            ClientInputView::Payload(Ok(content)),
        ) == (
            activated(s, trimmed(content)),
            ReactionView::Deliver {
                envelope: notice(confirmation_text(trimmed(content))),
                purpose: Delivery::Confirmation,
            },
        ),
{
}

/// Relay: what an active session publishes is delivered unchanged to the
/// client of every other live session that gets it from the bus, and not to
/// the publisher's own.
pub proof fn lemma_published_reaches_others(
    publisher: SessionView,
    content: Seq<char>,
    other: SessionView,
)
    requires
        publisher.state is Active,
        !(other.state is Terminated),
        other.connection_id != publisher.connection_id,
    ensures
        ({
            let envelope = chat(
                publisher.connection_id,
                publisher.state->display_name,
                content,
            );
            &&& client_step(publisher, ClientInputView::Payload(Ok(content))) == (
                publisher,
                ReactionView::Publish { envelope },
            )
            &&& bus_step(other, BusEventView::Envelope(envelope)) == (
                other,
                ReactionView::Deliver { envelope, purpose: Delivery::Relay },
            )
            &&& bus_step(publisher, BusEventView::Envelope(envelope)) == (
                publisher,
                ReactionView::Nothing,
            )
        }),
{
}

/// A subscription that fell behind is no reason to stop: the session sends
/// nothing, goes on as it was, and takes what the bus yields next as if
/// nothing had been missed.
pub proof fn lemma_lag_is_survived(s: SessionView, missed: u64, next: BusEventView)
    ensures
        bus_step(s, BusEventView::Lagged(missed)) == (s, ReactionView::Nothing),
        bus_step(bus_step(s, BusEventView::Lagged(missed)).0, next) == bus_step(s, next),
{
}

/// A payload that cannot be read is answered with the decode-failure notice
/// and leaves the session as it was, registered or not.
pub proof fn lemma_unreadable_payload_changes_nothing(s: SessionView, e: DecodeError)
    requires
        !(s.state is Terminated),
    ensures
        client_step(s, ClientInputView::Payload(Err(e))) == (
            s,
            ReactionView::Deliver {
                envelope: notice(decode_failure_text()),
                purpose: Delivery::DecodeFailure,
            },
        ),
{
}

/// The end of one connection concerns that session alone: the session
/// terminates, and nothing is sent or published on its account, so that no
/// other session gets an event from it.
pub proof fn lemma_close_is_silent(s: SessionView)
    ensures
        client_step(s, ClientInputView::Close) == (terminated(s), ReactionView::Nothing),
        client_step(s, ClientInputView::Failed) == (terminated(s), ReactionView::Nothing),
        bus_step(s, BusEventView::Closed) == (terminated(s), ReactionView::Nothing),
{
}

/// Taking one more event is one more step.
proof fn lemma_run_unfolds(s: SessionView, events: Seq<EventView>, k: int)
    requires
        0 <= k < events.len(),
    ensures
        run(s, events.take(k + 1)) == step(run(s, events.take(k)), events[k]).0,
{
    let longer = events.take(k + 1);
    assert(longer.drop_last() =~= events.take(k));
    assert(longer.last() == events[k]);
}

/// Histories lead forward: whatever a session has taken, it is still bound
/// to the connection it started on, it has not fallen back to an earlier
/// state, and if it was well formed it still is.
pub proof fn lemma_histories_lead_forward(s: SessionView, events: Seq<EventView>)
    ensures
        follows(s, run(s, events)),
        well_formed(s) ==> well_formed(run(s, events)),
    decreases events.len(),
{
    if events.len() > 0 {
        let before = run(s, events.drop_last());
        lemma_histories_lead_forward(s, events.drop_last());
        lemma_steps_lead_forward(before, events.last());
        if well_formed(before) {
            lemma_steps_keep_well_formed(before, events.last());
        }
    }
}

/// Self-echo suppression over a whole history: an envelope that a session
/// has published at some point is never delivered to its own client when the
/// bus hands it back later, whatever happened in between.
pub proof fn lemma_never_echoed(
    s: SessionView,
    events: Seq<EventView>,
    published: int,
    returned: int,
    envelope: ChatMessageView,
)
    requires
        0 <= published < returned < events.len(),
        reaction_at(s, events, published) == (ReactionView::Publish { envelope }),
        events[returned] == EventView::FromBus(BusEventView::Envelope(envelope)),
    ensures
        reaction_at(s, events, returned) == ReactionView::Nothing,
        run(s, events.take(returned + 1)) == run(s, events.take(returned)),
{
    let publisher = run(s, events.take(published));
    let later = run(s, events.take(returned));
    lemma_histories_lead_forward(s, events.take(published));
    lemma_histories_lead_forward(s, events.take(returned));
    lemma_only_active_sessions_publish(publisher, events[published]);
    lemma_no_self_echo(publisher, events[published]->FromClient_0, later, envelope);
    lemma_run_unfolds(s, events, returned);
}

/// An active session that started out new has confirmed its display name at
/// some point of its history; the result is such a point.
proof fn lemma_active_since(connection_id: Seq<char>, events: Seq<EventView>) -> (j: int)
    requires
        run(fresh(connection_id), events).state is Active,
    ensures
        0 <= j < events.len(),
        confirms(
            reaction_at(fresh(connection_id), events, j),
            run(fresh(connection_id), events).state->display_name,
        ),
    decreases events.len(),
{
    let start = fresh(connection_id);
    let shorter = events.drop_last();
    let before = run(start, shorter);
    let last = (events.len() - 1) as int;
    assert(events.take(last) =~= shorter);
    if before.state is Active {
        let j = lemma_active_since(connection_id, shorter);
        lemma_steps_lead_forward(before, events.last());
        assert(shorter.take(j) =~= events.take(j));
        assert(shorter[j] == events[j]);
        j
    } else {
        last
    }
}

/// No chat before registration, over a whole history: when a session that
/// started out new publishes, it has earlier confirmed a display name to its
/// client, and it publishes under that name.
pub proof fn lemma_publication_follows_registration(
    connection_id: Seq<char>,
    events: Seq<EventView>,
    k: int,
    envelope: ChatMessageView,
)
    requires
        0 <= k < events.len(),
        reaction_at(fresh(connection_id), events, k) == (ReactionView::Publish { envelope }),
    ensures
        exists|j: int, name: Seq<char>|
            {
                &&& 0 <= j < k
                &&& #[trigger] confirms(reaction_at(fresh(connection_id), events, j), name)
                &&& envelope.username == Some(name)
            },
{
    let before = run(fresh(connection_id), events.take(k));
    lemma_only_active_sessions_publish(before, events[k]);
    let name = before.state->display_name;
    let j = lemma_active_since(connection_id, events.take(k));
    assert(events.take(k).take(j) =~= events.take(j));
    assert(events.take(k)[j] == events[j]);
    assert(confirms(reaction_at(fresh(connection_id), events, j), name));
}

} // verus!
