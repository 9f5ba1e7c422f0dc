//! The echo session over whole sequences of events, and what holds of it.

use crate::session::{Action, Event, Fatal, Packet, Session, TransferError};
use vstd::prelude::*;

verus! {

impl Session {
    /// The session fed with `events`, oldest first: the state it ends in and
    /// the actions it asked for, one for each event, or the fault that
    /// ended it.
    pub open spec fn run(self, events: Seq<Event>) -> Result<(Session, Seq<Action>), Fatal>
        decreases events.len(),
    {
        if events.len() == 0 {
            Ok((self, Seq::empty()))
        } else {
            match self.next(events.first()) {
                Err(fault) => Err(fault),
                Ok((state, action)) => match state.run(events.drop_first()) {
                    Err(fault) => Err(fault),
                    Ok((end, actions)) => Ok((end, seq![action] + actions)),
                },
            }
        }
    }
}

/// The contents of the packets that came from the host, oldest first.
pub open spec fn received(events: Seq<Event>) -> Seq<Seq<u8>>
    decreases events.len(),
{
    if events.len() == 0 {
        Seq::empty()
    } else {
        match events.first() {
            Event::Received(packet) => seq![packet@] + received(events.drop_first()),
            _ => received(events.drop_first()),
        }
    }
}

/// The contents of the packets that go back to the host, oldest first.
pub open spec fn echoed(actions: Seq<Action>) -> Seq<Seq<u8>>
    decreases actions.len(),
{
    if actions.len() == 0 {
        Seq::empty()
    } else {
        match actions.first() {
            Action::Echo(packet) => seq![packet@] + echoed(actions.drop_first()),
            _ => echoed(actions.drop_first()),
        }
    }
}

/// The events of `n` exchanges in each of which the host sends `packet` and
/// takes the reply.
pub open spec fn exchanges(packet: Packet, n: nat) -> Seq<Event>
    decreases n,
{
    if n == 0 {
        Seq::empty()
    } else {
        seq![Event::Received(packet), Event::Sent] + exchanges(packet, (n - 1) as nat)
    }
}

/// What `echoed` makes of a sequence that starts with `action`.
proof fn lemma_echoed_push_front(action: Action, actions: Seq<Action>)
    ensures
        echoed(seq![action] + actions) == (match action {
            Action::Echo(packet) => seq![packet@] + echoed(actions),
            _ => echoed(actions),
        }),
{
    assert((seq![action] + actions).drop_first() =~= actions);
}

/// While the connection lasts, what goes back to the host is what came
/// from it: an active session that meets no failure stays active, asks for
/// one action per event, and echoes the packets it received, each
/// unchanged and in the order of arrival.
pub proof fn lemma_echoes_what_it_receives(events: Seq<Event>)
    requires
        forall|i: int| 0 <= i < events.len() ==> !(events[i] is Failed),
    ensures
        Session::Active.run(events) matches Ok((end, actions)) && end == Session::Active
            && actions.len() == events.len() && echoed(actions) == received(events),
    decreases events.len(),
{
    if events.len() > 0 {
        let rest = events.drop_first();
        assert forall|i: int| 0 <= i < rest.len() implies !(rest[i] is Failed) by {
            assert(rest[i] == events[i + 1]);
        }
        lemma_echoes_what_it_receives(rest);
        let (_, action) = Session::Active.next(events.first())->Ok_0;
        let (_, actions) = Session::Active.run(rest)->Ok_0;
        lemma_echoed_push_front(action, actions);
    }
}

/// A packet sent while the session is active comes back as it went: the
/// action that follows its arrival is the echo of this very packet, and the
/// session stays active.
pub proof fn lemma_round_trip(packet: Packet)
    ensures
        Session::Active.next(Event::Received(packet)) == Ok::<_, Fatal>(
            (Session::Active, Action::Echo(packet)),
        ),
        Session::Active.run(seq![Event::Received(packet)]) matches Ok((end, actions))
            && end == Session::Active && echoed(actions) == seq![packet@],
{
    let events = seq![Event::Received(packet)];
    lemma_echoes_what_it_receives(events);
    assert(received(events.drop_first()) == Seq::<Seq<u8>>::empty());
    assert(received(events) =~= seq![packet@]);
}

/// The packets that came from the host in `n` exchanges of `packet`: `n`
/// times its contents. None of the events is a failure.
proof fn lemma_received_in_exchanges(packet: Packet, n: nat)
    ensures
        exchanges(packet, n).len() == 2 * n,
        forall|i: int| 0 <= i < 2 * n ==> !(#[trigger] exchanges(packet, n)[i] is Failed),
        received(exchanges(packet, n)) == Seq::new(n, |i: int| packet@),
    decreases n,
{
    if n > 0 {
        let before = exchanges(packet, (n - 1) as nat);
        let all = exchanges(packet, n);
        lemma_received_in_exchanges(packet, (n - 1) as nat);
        assert forall|i: int| 0 <= i < 2 * n implies !(#[trigger] all[i] is Failed) by {
            if i >= 2 {
                assert(all[i] == before[i - 2]);
            }
        }
        let tail = all.drop_first();
        assert(tail.drop_first() =~= before);
        assert(received(tail) == received(before));
    }
}

/// Sending the same packet `n` times while the session is active gives
/// `n` echoes, each with the contents of that packet and so none larger
/// than it, and leaves the session active.
pub proof fn lemma_same_packet_n_times(packet: Packet, n: nat)
    ensures
        Session::Active.run(exchanges(packet, n)) matches Ok((end, actions)) && end
            == Session::Active && echoed(actions).len() == n && forall|i: int|
            0 <= i < n ==> #[trigger] echoed(actions)[i] == packet@ && echoed(actions)[i].len()
                <= packet@.len(),
{
    lemma_received_in_exchanges(packet, n);
    lemma_echoes_what_it_receives(exchanges(packet, n));
}

/// A reply comes before the next read: a packet that has arrived at an
/// active session is answered with its echo, and the session asks for
/// another packet only once the endpoints have been enabled or a reply has
/// gone out.
pub proof fn lemma_reply_before_next_read(state: Session, event: Event)
    ensures
        state == Session::Active && event is Received ==> state.next(event) matches Ok(
            (_, Action::Echo(_)),
        ),
        state.next(event) matches Ok((_, Action::Receive)) ==> event is Enabled || event is Sent,
{
}

/// When the endpoints are disabled the session, whatever its state, waits
/// for the next connection; once they are enabled again it is active and
/// reads, and the packet that comes next is echoed. No fault is involved.
pub proof fn lemma_recovers_from_disconnect(state: Session, packet: Packet)
    ensures
        state.next(Event::Failed(TransferError::Disabled)) == Ok::<_, Fatal>(
            (Session::WaitingForConnection, Action::WaitEnabled),
        ),
        Session::WaitingForConnection.next(Event::Enabled) == Ok::<_, Fatal>(
            (Session::Active, Action::Receive),
        ),
        state.run(
            seq![Event::Failed(TransferError::Disabled), Event::Enabled, Event::Received(packet)],
        ) == Ok::<_, Fatal>(
            (Session::Active, seq![Action::WaitEnabled, Action::Receive, Action::Echo(packet)]),
        ),
{
    let disabled = Event::Failed(TransferError::Disabled);
    let all = seq![disabled, Event::Enabled, Event::Received(packet)];
    let two = seq![Event::Enabled, Event::Received(packet)];
    let one = seq![Event::Received(packet)];
    assert(all.drop_first() =~= two);
    assert(two.drop_first() =~= one);
    assert(one.drop_first() =~= Seq::<Event>::empty());
    assert(Session::Active.run(Seq::<Event>::empty()) == Ok::<_, Fatal>(
        (Session::Active, Seq::<Action>::empty()),
    ));
    assert(Session::Active.run(one) matches Ok((end, actions)) && end == Session::Active
        && actions =~= seq![Action::Echo(packet)]);
    assert(Session::WaitingForConnection.run(two) matches Ok((end, actions)) && end
        == Session::Active && actions =~= seq![Action::Receive, Action::Echo(packet)]);
    assert(state.run(all) matches Ok((end, actions)) && end == Session::Active && actions
        =~= seq![Action::WaitEnabled, Action::Receive, Action::Echo(packet)]);
}

/// An overflow is never passed over: a run ends in a fault exactly when one
/// of its events is an overflow, whatever the state it starts in and
/// whatever else happens. No other event ends the session, and a run that
/// does not end in a fault has asked for one action per event.
pub proof fn lemma_overflow_is_fatal(state: Session, events: Seq<Event>)
    ensures
        state.run(events) is Err <==> exists|i: int|
            0 <= i < events.len() && events[i] == Event::Failed(TransferError::BufferOverflow),
        state.run(events) matches Ok((_, actions)) ==> actions.len() == events.len(),
    decreases events.len(),
{
    let overflow = Event::Failed(TransferError::BufferOverflow);
    if events.len() > 0 {
        let rest = events.drop_first();
        if let Ok((following, _)) = state.next(events.first()) {
            lemma_overflow_is_fatal(following, rest);
            if following.run(rest) is Err {
                let i = choose|i: int| 0 <= i < rest.len() && rest[i] == overflow;
                assert(events[i + 1] == overflow);
            } else {
                assert forall|i: int| 0 <= i < events.len() implies events[i] != overflow by {
                    if i > 0 {
                        assert(rest[i - 1] == events[i]);
                    }
                }
            }
        } else {
            assert(events[0] == overflow);
        }
    }
}

} // verus!
