use std::collections::HashMap;

use tokio::sync::mpsc::{UnboundedReceiver, UnboundedSender};
use vstd::prelude::*;

use crate::events::{ChatEvent, Event};
use crate::jid::{parse_jid, Jid};
use crate::types::{ConnId, GoInt, FAILURE};

verus! {

broadcast use vstd::std_specs::hash::group_hash_axioms;

#[verifier::external_type_specification]
#[verifier::external_body]
#[verifier::reject_recursive_types(T)]
pub struct ExUnboundedSender<T>(UnboundedSender<T>);

#[verifier::external_type_specification]
#[verifier::external_body]
#[verifier::reject_recursive_types(T)]
pub struct ExUnboundedReceiver<T>(UnboundedReceiver<T>);

/// Relies on tokio's `mpsc::unbounded_channel`: a fresh channel whose two
/// halves belong together.
#[verifier::external_body]
fn new_channel() -> (UnboundedSender<Event>, UnboundedReceiver<Event>) {
    tokio::sync::mpsc::unbounded_channel()
}

/// Relies on tokio's `UnboundedSender::send`: it never blocks, and it
/// refuses the event only when the receiving half is closed or dropped.
/// Whether it accepts depends on the receiver, so nothing is promised here.
/// (tokio aborts the process if the count of queued messages would overflow
/// `usize`, which no input here can be kept from.)
#[verifier::external_body]
fn send_event(sender: &UnboundedSender<Event>, event: Event) -> (accepted: bool) {
    sender.send(event).is_ok()
}

/// What became of an event handed to the table.
#[derive(Debug, Clone, Copy, PartialEq, Eq, Hash, Structural)]
pub enum Delivery {
    /// The connection's channel accepted the event.
    Delivered,
    /// The connection's channel refused it: its receiving half is gone.
    Refused,
    /// No channel is registered for the connection; the event was dropped.
    NoChannel,
    /// The chat id did not parse; the event was dropped.
    BadChat,
    /// The sender id did not parse; the event was dropped.
    BadSender,
}

/// The table from connection ids to the sending halves of their event
/// channels.
///
/// Besides the table it tracks, for each registered connection, the events
/// handed to the connection's current channel and those the channel
/// accepted, each in order.
pub struct Registry {
    senders: HashMap<isize, UnboundedSender<Event>>,
    offered: Ghost<Map<isize, Seq<Event>>>,
    accepted: Ghost<Map<isize, Seq<Event>>>,
}

impl Registry {
    /// Whether events for `id` have a channel to go to.
    pub closed spec fn is_registered(&self, id: isize) -> bool {
        self.senders@.contains_key(id)
    }

    /// The sending half registered for `id`, when `id` is registered.
    pub closed spec fn sender_of(&self, id: isize) -> UnboundedSender<Event> {
        self.senders@[id]
    }

    /// The events handed to the send of the channel registered for `id`
    /// since it was registered, oldest first.
    pub closed spec fn offered(&self, id: isize) -> Seq<Event> {
        if self.offered@.contains_key(id) {
            self.offered@[id]
        } else {
            Seq::empty()
        }
    }

    /// The events that the channel registered for `id` has accepted since
    /// it was registered, oldest first.
    pub closed spec fn delivered(&self, id: isize) -> Seq<Event> {
        if self.accepted@.contains_key(id) {
            self.accepted@[id]
        } else {
            Seq::empty()
        }
    }

    /// An empty table.
    pub fn new() -> (r: Registry)
        ensures
            forall|k: isize|
                !r.is_registered(k) && r.offered(k) == Seq::<Event>::empty() && r.delivered(k)
                    == Seq::<Event>::empty(),
    {
        Registry { senders: HashMap::new(), offered: Ghost(Map::empty()), accepted: Ghost(Map::empty()) }
    }

    /// Registers `sender` for `id`, replacing any sender registered before.
    pub fn add_sender(&mut self, id: ConnId, sender: UnboundedSender<Event>)
        ensures
            registered(old(self), final(self), id@),
            final(self).sender_of(id@) == sender,
    {
        let key = id.into_inner();
        self.senders.insert(key, sender);
        self.offered = Ghost(self.offered@.insert(key, Seq::empty()));
        self.accepted = Ghost(self.accepted@.insert(key, Seq::empty()));
    }

    /// Hands `event` to the channel of connection `id`. An event for a
    /// connection that has no channel is dropped.
    pub fn sendm(&mut self, id: i32, event: Event) -> (r: Delivery)
        ensures
            dispatched(old(self), final(self), id as isize, event, r),
    {
        let key = id as isize;
        let ghost ev = event;
        match self.senders.get(&key) {
            Some(sender) => {
                let ok = send_event(sender, event);
                self.offered = Ghost(self.offered@.insert(key, self.offered(key).push(ev)));
                if ok {
                    self.accepted = Ghost(self.accepted@.insert(key, self.delivered(key).push(ev)));
                    Delivery::Delivered
                } else {
                    Delivery::Refused
                }
            },
            None => Delivery::NoChannel,
        }
    }

    /// Hands a chat event to the channel of connection `id`, tagged with the
    /// chat that `chat_id` names. A `chat_id` that names no chat drops the
    /// event.
    pub fn sendc(&mut self, id: i32, chat_id: &str, event: ChatEvent) -> (r: Delivery)
        ensures
            chat_dispatched(old(self), final(self), id as isize, chat_id@, event, r),
    {
        match Event::in_chat(chat_id, event) {
            Some(tagged) => {
                let ghost t = tagged;
                let r = self.sendm(id, tagged);
                proof {
                    let j = choose|j: Jid| j@ == parse_jid(chat_id@)->Some_0 && Some(t) == Some(Event::ChatEvent(j, event));
                    assert(dispatched(old(self), self, id as isize, Event::ChatEvent(j, event), r));
                }
                r
            },
            None => Delivery::BadChat,
        }
    }

    /// Takes the result of the engine's connect call. On success the new
    /// connection gets a fresh channel, registered under the id the engine
    /// returned; the receiving half is handed back. The engine's failure
    /// value is an error and leaves the table as it was.
    pub fn accept_connection(&mut self, init_result: GoInt) -> (r: Result<(ConnId, UnboundedReceiver<Event>), ()>)
        ensures
            init_result == FAILURE ==> r is Err && unchanged(old(self), final(self)),
            init_result != FAILURE ==> r is Ok,
            r matches Ok((id, _)) ==> id@ == init_result as isize && registered(old(self), final(self), id@),
    {
        if init_result == FAILURE {
            Err(())
        } else {
            let id = ConnId::from_inner(init_result as isize);
            let (sender, receiver) = new_channel();
            self.add_sender(id, sender);
            Ok((id, receiver))
        }
    }
}

/// Connection `k` looks the same in `a` and `b`: same registration, same
/// sender, same events offered and accepted.
pub open spec fn same_at(a: &Registry, b: &Registry, k: isize) -> bool {
    &&& b.is_registered(k) == a.is_registered(k)
    &&& b.is_registered(k) ==> b.sender_of(k) == a.sender_of(k)
    &&& b.offered(k) == a.offered(k)
    &&& b.delivered(k) == a.delivered(k)
}

/// No connection differs between `a` and `b`.
pub open spec fn unchanged(a: &Registry, b: &Registry) -> bool {
    forall|k: isize| #[trigger] same_at(a, b, k)
}

/// `b` is `a` after a chat event was handed to connection `id`, tagged with
/// the chat that `chat_text` names. Text that names no chat, and only such
/// text, drops the event as `BadChat`.
pub open spec fn chat_dispatched(
    a: &Registry,
    b: &Registry,
    id: isize,
    chat_text: Seq<char>,
    event: ChatEvent,
    r: Delivery,
) -> bool {
    match parse_jid(chat_text) {
        Some(chat) => exists|j: Jid| j@ == chat && dispatched(a, b, id, Event::ChatEvent(j, event), r),
        None => r is BadChat && unchanged(a, b),
    }
}

/// `b` is `a` with a fresh channel registered for `id`: nothing offered to
/// it or accepted by it yet.
pub open spec fn registered(a: &Registry, b: &Registry, id: isize) -> bool {
    &&& b.is_registered(id)
    &&& b.offered(id) == Seq::<Event>::empty()
    &&& b.delivered(id) == Seq::<Event>::empty()
    &&& forall|k: isize| k != id ==> #[trigger] same_at(a, b, k)
}

/// `b` is `a` after `event` was handed to connection `id`. A registered
/// connection, and only one, has the event handed to the send of its
/// channel; the result tells whether the channel accepted it, and only then
/// did it gain the event. No registration, sender or other connection
/// changed.
pub open spec fn dispatched(a: &Registry, b: &Registry, id: isize, event: Event, r: Delivery) -> bool {
    &&& (r is NoChannel) <==> !a.is_registered(id)
    &&& r is Delivered || r is Refused || r is NoChannel
    &&& b.is_registered(id) == a.is_registered(id)
    &&& b.is_registered(id) ==> b.sender_of(id) == a.sender_of(id)
    &&& b.offered(id) == if a.is_registered(id) { a.offered(id).push(event) } else { a.offered(id) }
    &&& b.delivered(id) == if r is Delivered { a.delivered(id).push(event) } else { a.delivered(id) }
    &&& forall|k: isize| k != id ==> #[trigger] same_at(a, b, k)
}

/// The events of `steps` that were addressed to `id` and accepted, in order.
/// Each step is a connection id, an event, and what became of it.
pub open spec fn accepted_for(steps: Seq<(isize, Event, Delivery)>, id: isize) -> Seq<Event>
    decreases steps.len(),
{
    if steps.len() == 0 {
        Seq::empty()
    } else {
        let last = steps.last();
        let before = accepted_for(steps.drop_last(), id);
        if last.0 == id && last.2 is Delivered {
            before.push(last.1)
        } else {
            before
        }
    }
}

/// The events of `steps` that were addressed to `id`, in order.
pub open spec fn addressed_to(steps: Seq<(isize, Event, Delivery)>, id: isize) -> Seq<Event>
    decreases steps.len(),
{
    if steps.len() == 0 {
        Seq::empty()
    } else {
        let last = steps.last();
        let before = addressed_to(steps.drop_last(), id);
        if last.0 == id {
            before.push(last.1)
        } else {
            before
        }
    }
}

/// After registering `n`, the event then handed to `n` reaches the send of
/// `n`'s channel, and is all that channel holds once accepted; an event for
/// a connection `m` that was never registered is dropped as `NoChannel` and
/// changes nothing.
pub proof fn lemma_register_then_dispatch(
    r0: Registry,
    r1: Registry,
    r2: Registry,
    r3: Registry,
    n: isize,
    m: isize,
    e1: Event,
    e2: Event,
    d1: Delivery,
    d2: Delivery,
)
    requires
        registered(&r0, &r1, n),
        dispatched(&r1, &r2, n, e1, d1),
        dispatched(&r2, &r3, m, e2, d2),
        m != n,
        !r0.is_registered(m),
    ensures
        !(d1 is NoChannel),
        r3.offered(n) == seq![e1],
        d1 is Delivered ==> r3.delivered(n) == seq![e1],
        d1 is Refused ==> r3.delivered(n) == Seq::<Event>::empty(),
        d2 is NoChannel,
        unchanged(&r2, &r3),
{
    assert(same_at(&r0, &r1, m));
    assert(same_at(&r1, &r2, m));
    assert(same_at(&r2, &r3, n));
    assert(r1.offered(n).push(e1) =~= seq![e1]);
    assert(r1.delivered(n).push(e1) =~= seq![e1]);
    assert forall|k: isize| #[trigger] same_at(&r2, &r3, k) by {
        if k != m {
            assert(same_at(&r2, &r3, k));
        }
    }
}

/// Over any run of dispatches, taken one at a time as the table's lock
/// orders them, no registration changes, each registered connection's
/// channel is handed exactly the events addressed to it, and gains exactly
/// the accepted ones, in the order they were handed over: none reaches
/// another connection and none is lost.
pub proof fn lemma_dispatches_stay_apart(states: Seq<Registry>, steps: Seq<(isize, Event, Delivery)>)
    requires
        states.len() == steps.len() + 1,
        forall|i: int|
            0 <= i < steps.len() ==> dispatched(
                &states[i],
                &states[i + 1],
                #[trigger] steps[i].0,
                steps[i].1,
                steps[i].2,
            ),
    ensures
        forall|id: isize| #[trigger] states.last().is_registered(id) == states[0].is_registered(id),
        forall|id: isize|
            #[trigger] states.last().delivered(id) == states[0].delivered(id) + accepted_for(steps, id),
        forall|id: isize|
            #[trigger] states.last().offered(id) == states[0].offered(id) + if states[0].is_registered(id) {
                addressed_to(steps, id)
            } else {
                Seq::<Event>::empty()
            },
    decreases steps.len(),
{
    if steps.len() == 0 {
        assert forall|id: isize| #[trigger] states.last().delivered(id) == states[0].delivered(id)
            + accepted_for(steps, id) by {
            assert(states[0].delivered(id) + Seq::<Event>::empty() =~= states[0].delivered(id));
        }
        assert forall|id: isize| #[trigger] states.last().offered(id) == states[0].offered(id)
            + if states[0].is_registered(id) { addressed_to(steps, id) } else { Seq::<Event>::empty() } by {
            assert(states[0].offered(id) + Seq::<Event>::empty() =~= states[0].offered(id));
        }
    } else {
        let k = steps.len() - 1;
        let s2 = states.drop_last();
        let t2 = steps.drop_last();
        assert forall|i: int| 0 <= i < t2.len() implies dispatched(
            &s2[i],
            &s2[i + 1],
            #[trigger] t2[i].0,
            t2[i].1,
            t2[i].2,
        ) by {
            assert(steps[i] == t2[i]);
            assert(dispatched(&states[i], &states[i + 1], steps[i].0, steps[i].1, steps[i].2));
        }
        lemma_dispatches_stay_apart(s2, t2);
        assert(dispatched(&states[k], &states[k + 1], steps[k].0, steps[k].1, steps[k].2));
        assert(s2.last() == states[k]);
        assert forall|id: isize| #[trigger] states.last().is_registered(id) == states[0].is_registered(id) by {
            assert(s2.last().is_registered(id) == s2[0].is_registered(id));
            if id != steps[k].0 {
                assert(same_at(&states[k], &states[k + 1], id));
            }
        }
        assert forall|id: isize| #[trigger] states.last().delivered(id) == states[0].delivered(id)
            + accepted_for(steps, id) by {
            assert(s2.last().delivered(id) == s2[0].delivered(id) + accepted_for(t2, id));
            if id != steps[k].0 {
                assert(same_at(&states[k], &states[k + 1], id));
            }
            if steps[k].0 == id && steps[k].2 is Delivered {
                assert(states[0].delivered(id) + accepted_for(t2, id).push(steps[k].1)
                    =~= (states[0].delivered(id) + accepted_for(t2, id)).push(steps[k].1));
            }
        }
        assert forall|id: isize| #[trigger] states.last().offered(id) == states[0].offered(id)
            + if states[0].is_registered(id) { addressed_to(steps, id) } else { Seq::<Event>::empty() } by {
            assert(s2.last().is_registered(id) == s2[0].is_registered(id));
            assert(s2.last().offered(id) == s2[0].offered(id)
                + if s2[0].is_registered(id) { addressed_to(t2, id) } else { Seq::<Event>::empty() });
            if id != steps[k].0 {
                assert(same_at(&states[k], &states[k + 1], id));
            } else if states[0].is_registered(id) {
                assert(states[0].offered(id) + addressed_to(t2, id).push(steps[k].1)
                    =~= (states[0].offered(id) + addressed_to(t2, id)).push(steps[k].1));
            } else {
                assert(states[0].offered(id) + Seq::<Event>::empty() =~= states[0].offered(id));
            }
        }
    }
}

} // verus!
