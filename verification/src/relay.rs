//! The relay engine's decision core and its mathematical model.
//!
//! The running loops suspend only at I/O boundaries (reading a source
//! endpoint, writing a destination endpoint), which the surrounding process
//! owns. Every decision in between is made here: [`Proxy::on_event`] fixes,
//! for each event a loop observes, whether to forward and where, or which
//! terminating error to report; [`Proxy::dispatch`] fans a copy of a forwarded
//! message out to the registered observer, after the forward write succeeded
//! and without ever blocking on it.
//!
//! The ghost functions [`event_outputs`] and [`run_outputs`] state what a
//! whole run of the engine produces for a trace of events, and the proof
//! functions at the end establish the delivery laws of the engine over every
//! trace: per-direction order preservation, exactly-once fan-out for a
//! registered key, and silence for an unregistered one.

use vstd::prelude::*;

use crate::messages::Direction;
use crate::messages::MessageModel;
use crate::messages::RelayError;
use crate::messages::TypedMessage;
use crate::registry::DispatchOutcome;
use crate::registry::HandlerRegistry;
use crate::registry::RegistryModel;

verus! {

/// One observation a relay loop hands to the decision core: either a decoded
/// message, or the fatal condition that ended reading, decoding or writing.
pub enum RelayEvent {
    /// A complete message was decoded from its source endpoint.
    MessageArrived { message: TypedMessage },
    /// The peer on `direction` closed its connection.
    PeerClosed { direction: Direction },
    /// Malformed bytes arrived from the peer on `direction`; nothing of them
    /// is forwarded or dispatched.
    MalformedFrame { direction: Direction },
    /// Writing a message of origin `direction` to its destination failed.
    WriteFailed { direction: Direction },
    /// A message could not be re-encoded for forwarding.
    EncodeFailed,
}

/// Mathematical model of a [`RelayEvent`].
pub ghost enum RelayEventModel {
    MessageArrived { message: MessageModel },
    PeerClosed { direction: Direction },
    MalformedFrame { direction: Direction },
    WriteFailed { direction: Direction },
    EncodeFailed,
}

impl View for RelayEvent {
    type V = RelayEventModel;

    open spec fn view(&self) -> RelayEventModel {
        match self {
            RelayEvent::MessageArrived { message } => RelayEventModel::MessageArrived {
                message: message@,
            },
            RelayEvent::PeerClosed { direction } => RelayEventModel::PeerClosed {
                direction: *direction,
            },
            RelayEvent::MalformedFrame { direction } => RelayEventModel::MalformedFrame {
                direction: *direction,
            },
            RelayEvent::WriteFailed { direction } => RelayEventModel::WriteFailed {
                direction: *direction,
            },
            RelayEvent::EncodeFailed => RelayEventModel::EncodeFailed,
        }
    }
}

/// The decision the engine takes on one event: keep relaying by writing to
/// `destination`, or stop the whole proxy with `error`.
#[derive(Clone, Copy, PartialEq, Eq, Structural, Debug)]
pub enum RelayStep {
    /// Forward the arrived message to the peer opposite its origin, then
    /// attempt the observation dispatch.
    Forward { destination: Direction },
    /// The event is terminal: shut both directions down and report `error`
    /// as the result of the run.
    Terminate { error: RelayError },
}

/// Whether an event ends the run. Every event but a decoded message is
/// terminal: a broken or unsynchronizable stream is never resumed.
pub open spec fn is_fatal(event: RelayEventModel) -> bool {
    !(event is MessageArrived)
}

/// The decision fixed for each event: a message is forwarded to the opposite
/// peer; each fatal event terminates the proxy with the error naming the
/// side and phase that failed.
pub open spec fn step_for(event: RelayEventModel) -> RelayStep {
    match event {
        RelayEventModel::MessageArrived { message } => RelayStep::Forward {
            destination: message.direction.spec_opposite(),
        },
        RelayEventModel::PeerClosed { direction } => RelayStep::Terminate {
            error: RelayError::ConnectionClosed { direction },
        },
        RelayEventModel::MalformedFrame { direction } => RelayStep::Terminate {
            error: RelayError::DecodeError { direction },
        },
        RelayEventModel::WriteFailed { direction } => RelayStep::Terminate {
            error: RelayError::WriteError { direction },
        },
        RelayEventModel::EncodeFailed => RelayStep::Terminate { error: RelayError::EncodeError },
    }
}

/// Mathematical model of a running proxy: the two endpoints it owns and the
/// completed handler registry.
pub ghost struct ProxyModel<E> {
    pub client: E,
    pub server: E,
    pub registry: RegistryModel,
}

/// A runnable proxy: both endpoints staged and the handler registry complete.
/// Only [`crate::builder::ProxyBuilder::try_build`] creates one. The registry
/// is read-only from here on: the two relay loops share it without locking.
pub struct Proxy<E> {
    client: E,
    server: E,
    registry: HandlerRegistry,
}

impl<E> View for Proxy<E> {
    type V = ProxyModel<E>;

    closed spec fn view(&self) -> ProxyModel<E> {
        ProxyModel { client: self.client, server: self.server, registry: self.registry@ }
    }
}

impl<E> Proxy<E> {
    /// Assembles a proxy from its parts; only the builder calls this.
    pub(crate) fn assemble(client: E, server: E, registry: HandlerRegistry) -> (r: Proxy<E>)
        ensures
            r@ == (ProxyModel { client, server, registry: registry@ }),
    {
        Proxy { client, server, registry }
    }

    /// The decision for one observed event: exactly [`step_for`] of its
    /// model. A decoded message is forwarded to the peer opposite its
    /// origin; every fatal event terminates the run with the corresponding
    /// error.
    pub fn on_event(&self, event: &RelayEvent) -> (r: RelayStep)
        ensures
            r == step_for(event@),
    {
        match event {
            RelayEvent::MessageArrived { message } => RelayStep::Forward {
                destination: message.direction().opposite(),
            },
            RelayEvent::PeerClosed { direction } => RelayStep::Terminate {
                error: RelayError::ConnectionClosed { direction: *direction },
            },
            RelayEvent::MalformedFrame { direction } => RelayStep::Terminate {
                error: RelayError::DecodeError { direction: *direction },
            },
            RelayEvent::WriteFailed { direction } => RelayStep::Terminate {
                error: RelayError::WriteError { direction: *direction },
            },
            RelayEvent::EncodeFailed => RelayStep::Terminate { error: RelayError::EncodeError },
        }
    }

    /// Offers a copy of a just-forwarded message to the observer registered
    /// for its (direction, type id), never blocking: a missing handler, a
    /// full buffer or a gone consumer leave the relay untouched. To keep the
    /// ordering guarantee (the peer no later than the observer), call this
    /// only after the forward write succeeded.
    pub fn dispatch(&self, message: &TypedMessage) -> (r: DispatchOutcome)
        ensures
            r is NoHandler <==> !self@.registry.registered(message@.direction, message@.type_id),
    {
        self.registry.dispatch(message)
    }

    /// Ends the proxy's ownership: hands both endpoints back for closing and
    /// drops the registry, which drops every handler sender, so every
    /// registered receiver observes end-of-stream instead of waiting on a
    /// dead source.
    pub fn shutdown(self) -> (r: (E, E))
        ensures
            r.0 == self@.client,
            r.1 == self@.server,
    {
        (self.client, self.server)
    }
}

/// What one non-fatal event makes the engine emit: the forward to the
/// opposite peer, then - exactly when a handler is registered for the
/// message's key - one observation copy. A fatal event emits nothing.
pub ghost enum RelayOutput {
    /// The message was written to `destination`, the peer opposite its
    /// origin.
    Forwarded { destination: Direction, message: MessageModel },
    /// A copy of the message was offered to the handler registered for its
    /// (direction, type id).
    Observed { message: MessageModel },
}

/// The outputs of the engine for one event, under a fixed registry.
pub open spec fn event_outputs(registry: RegistryModel, event: RelayEventModel) -> Seq<
    RelayOutput,
> {
    match event {
        RelayEventModel::MessageArrived { message } => {
            let forward = RelayOutput::Forwarded {
                destination: message.direction.spec_opposite(),
                message,
            };
            if registry.registered(message.direction, message.type_id) {
                seq![forward, RelayOutput::Observed { message }]
            } else {
                seq![forward]
            }
        },
        _ => Seq::empty(),
    }
}

/// The outputs of a whole run over an event trace: the per-event outputs in
/// trace order, cut off at the first fatal event.
pub open spec fn run_outputs(registry: RegistryModel, events: Seq<RelayEventModel>) -> Seq<
    RelayOutput,
>
    decreases events.len(),
{
    if events.len() == 0 {
        Seq::empty()
    } else if is_fatal(events[0]) {
        Seq::empty()
    } else {
        event_outputs(registry, events[0]) + run_outputs(registry, events.drop_first())
    }
}

/// The messages a run forwards whose origin is `origin`, in output order.
pub open spec fn forwards_from(outputs: Seq<RelayOutput>, origin: Direction) -> Seq<MessageModel>
    decreases outputs.len(),
{
    if outputs.len() == 0 {
        Seq::empty()
    } else {
        let rest = forwards_from(outputs.drop_first(), origin);
        match outputs[0] {
            RelayOutput::Forwarded { destination, message } => {
                if message.direction == origin {
                    seq![message] + rest
                } else {
                    rest
                }
            },
            RelayOutput::Observed { .. } => rest,
        }
    }
}

/// The messages of origin `origin` an event trace delivers, in trace order,
/// cut off at the first fatal event.
pub open spec fn arrivals_from(events: Seq<RelayEventModel>, origin: Direction) -> Seq<
    MessageModel,
>
    decreases events.len(),
{
    if events.len() == 0 {
        Seq::empty()
    } else if is_fatal(events[0]) {
        Seq::empty()
    } else {
        let rest = arrivals_from(events.drop_first(), origin);
        match events[0] {
            RelayEventModel::MessageArrived { message } => {
                if message.direction == origin {
                    seq![message] + rest
                } else {
                    rest
                }
            },
            _ => rest,
        }
    }
}

/// The messages a run forwards that carry exactly the key (direction,
/// type_id), in output order.
pub open spec fn forwarded_of(
    outputs: Seq<RelayOutput>,
    direction: Direction,
    type_id: u8,
) -> Seq<MessageModel>
    decreases outputs.len(),
{
    if outputs.len() == 0 {
        Seq::empty()
    } else {
        let rest = forwarded_of(outputs.drop_first(), direction, type_id);
        match outputs[0] {
            RelayOutput::Forwarded { destination, message } => {
                if message.direction == direction && message.type_id == type_id {
                    seq![message] + rest
                } else {
                    rest
                }
            },
            RelayOutput::Observed { .. } => rest,
        }
    }
}

/// The observation copies a run offers for exactly the key (direction,
/// type_id), in output order.
pub open spec fn observed_of(outputs: Seq<RelayOutput>, direction: Direction, type_id: u8) -> Seq<
    MessageModel,
>
    decreases outputs.len(),
{
    if outputs.len() == 0 {
        Seq::empty()
    } else {
        let rest = observed_of(outputs.drop_first(), direction, type_id);
        match outputs[0] {
            RelayOutput::Observed { message } => {
                if message.direction == direction && message.type_id == type_id {
                    seq![message] + rest
                } else {
                    rest
                }
            },
            RelayOutput::Forwarded { .. } => rest,
        }
    }
}

proof fn lemma_forwards_from_concat(a: Seq<RelayOutput>, b: Seq<RelayOutput>, origin: Direction)
    ensures
        forwards_from(a + b, origin) == forwards_from(a, origin) + forwards_from(b, origin),
    decreases a.len(),
{
    if a.len() == 0 {
        assert(a + b =~= b);
        assert(forwards_from(a, origin) + forwards_from(b, origin) =~= forwards_from(b, origin));
    } else {
        lemma_forwards_from_concat(a.drop_first(), b, origin);
        assert((a + b).drop_first() =~= a.drop_first() + b);
        assert(forwards_from(a + b, origin) =~= forwards_from(a, origin) + forwards_from(
            b,
            origin,
        ));
    }
}

proof fn lemma_forwarded_of_concat(
    a: Seq<RelayOutput>,
    b: Seq<RelayOutput>,
    direction: Direction,
    type_id: u8,
)
    ensures
        forwarded_of(a + b, direction, type_id) == forwarded_of(a, direction, type_id)
            + forwarded_of(b, direction, type_id),
    decreases a.len(),
{
    if a.len() == 0 {
        assert(a + b =~= b);
        assert(forwarded_of(a, direction, type_id) + forwarded_of(b, direction, type_id)
            =~= forwarded_of(b, direction, type_id));
    } else {
        lemma_forwarded_of_concat(a.drop_first(), b, direction, type_id);
        assert((a + b).drop_first() =~= a.drop_first() + b);
        assert(forwarded_of(a + b, direction, type_id) =~= forwarded_of(a, direction, type_id)
            + forwarded_of(b, direction, type_id));
    }
}

proof fn lemma_observed_of_concat(
    a: Seq<RelayOutput>,
    b: Seq<RelayOutput>,
    direction: Direction,
    type_id: u8,
)
    ensures
        observed_of(a + b, direction, type_id) == observed_of(a, direction, type_id) + observed_of(
            b,
            direction,
            type_id,
        ),
    decreases a.len(),
{
    if a.len() == 0 {
        assert(a + b =~= b);
        assert(observed_of(a, direction, type_id) + observed_of(b, direction, type_id)
            =~= observed_of(b, direction, type_id));
    } else {
        lemma_observed_of_concat(a.drop_first(), b, direction, type_id);
        assert((a + b).drop_first() =~= a.drop_first() + b);
        assert(observed_of(a + b, direction, type_id) =~= observed_of(a, direction, type_id)
            + observed_of(b, direction, type_id));
    }
}

proof fn lemma_event_head_filters(
    registry: RegistryModel,
    event: RelayEventModel,
    origin: Direction,
    direction: Direction,
    type_id: u8,
)
    requires
        !is_fatal(event),
    ensures
        forwards_from(event_outputs(registry, event), origin) == (if event->message.direction
            == origin {
            seq![event->message]
        } else {
            Seq::<MessageModel>::empty()
        }),
        forwarded_of(event_outputs(registry, event), direction, type_id) == (
        if event->message.direction == direction && event->message.type_id == type_id {
            seq![event->message]
        } else {
            Seq::<MessageModel>::empty()
        }),
        observed_of(event_outputs(registry, event), direction, type_id) == (if registry.registered(
            event->message.direction,
            event->message.type_id,
        ) && event->message.direction == direction && event->message.type_id == type_id {
            seq![event->message]
        } else {
            Seq::<MessageModel>::empty()
        }),
{
    let m = event->message;
    let fwd = RelayOutput::Forwarded { destination: m.direction.spec_opposite(), message: m };
    let obs = RelayOutput::Observed { message: m };
    let head = event_outputs(registry, event);
    let none = Seq::<RelayOutput>::empty();
    assert(forwards_from(none, origin) =~= Seq::<MessageModel>::empty());
    assert(forwarded_of(none, direction, type_id) =~= Seq::<MessageModel>::empty());
    assert(observed_of(none, direction, type_id) =~= Seq::<MessageModel>::empty());
    if registry.registered(m.direction, m.type_id) {
        assert(head =~= seq![fwd, obs]);
        assert(head.drop_first() =~= seq![obs]);
        assert(seq![obs].drop_first() =~= none);
        assert(forwards_from(seq![obs], origin) =~= Seq::<MessageModel>::empty());
        assert(forwarded_of(seq![obs], direction, type_id) =~= Seq::<MessageModel>::empty());
        if m.direction == direction && m.type_id == type_id {
            assert(observed_of(seq![obs], direction, type_id) =~= seq![m]);
            assert(observed_of(head, direction, type_id) =~= seq![m]);
        } else {
            assert(observed_of(seq![obs], direction, type_id) =~= Seq::<MessageModel>::empty());
            assert(observed_of(head, direction, type_id) =~= Seq::<MessageModel>::empty());
        }
    } else {
        assert(head =~= seq![fwd]);
        assert(head.drop_first() =~= none);
        assert(observed_of(head, direction, type_id) =~= Seq::<MessageModel>::empty());
    }
    if m.direction == origin {
        assert(forwards_from(head, origin) =~= seq![m]);
    } else {
        assert(forwards_from(head, origin) =~= Seq::<MessageModel>::empty());
    }
    if m.direction == direction && m.type_id == type_id {
        assert(forwarded_of(head, direction, type_id) =~= seq![m]);
    } else {
        assert(forwarded_of(head, direction, type_id) =~= Seq::<MessageModel>::empty());
    }
}

/// Order preservation per direction: over any event trace and any registry,
/// the run forwards exactly the messages that arrived from `origin`, in the
/// same relative order, up to the first fatal event. With
/// [`lemma_forward_destinations`], the peer opposite `origin` receives them
/// in that order.
pub proof fn lemma_order_preserved(
    registry: RegistryModel,
    events: Seq<RelayEventModel>,
    origin: Direction,
)
    ensures
        forwards_from(run_outputs(registry, events), origin) == arrivals_from(events, origin),
    decreases events.len(),
{
    if events.len() == 0 {
    } else if is_fatal(events[0]) {
    } else {
        lemma_order_preserved(registry, events.drop_first(), origin);
        lemma_forwards_from_concat(
            event_outputs(registry, events[0]),
            run_outputs(registry, events.drop_first()),
            origin,
        );
        lemma_event_head_filters(registry, events[0], origin, origin, 0);
        assert(forwards_from(run_outputs(registry, events), origin) =~= arrivals_from(
            events,
            origin,
        ));
    }
}

/// Every forward of a run goes to the peer opposite the message's origin.
pub proof fn lemma_forward_destinations(registry: RegistryModel, events: Seq<RelayEventModel>)
    ensures
        forall|i: int|
            0 <= i < run_outputs(registry, events).len() ==> (#[trigger] run_outputs(
                registry,
                events,
            )[i] matches RelayOutput::Forwarded { destination, message } ==> destination
                == message.direction.spec_opposite()),
    decreases events.len(),
{
    if events.len() == 0 {
    } else if is_fatal(events[0]) {
    } else {
        lemma_forward_destinations(registry, events.drop_first());
        let head = event_outputs(registry, events[0]);
        let tail = run_outputs(registry, events.drop_first());
        assert forall|i: int| 0 <= i < run_outputs(registry, events).len() implies (
        #[trigger] run_outputs(registry, events)[i] matches RelayOutput::Forwarded {
            destination,
            message,
        } ==> destination == message.direction.spec_opposite()) by {
            if i < head.len() {
                assert(run_outputs(registry, events)[i] == head[i]);
            } else {
                assert(run_outputs(registry, events)[i] == tail[i - head.len()]);
            }
        }
    }
}

/// Exactly-once fan-out: for a key with a registered handler, the copies a
/// run offers to that handler are exactly the messages it forwards with that
/// key, in forward order. A live, non-full channel accepts every offer, so
/// under those conditions each forwarded message of the key is observed at
/// least once - and in every case never more than once.
pub proof fn lemma_fanout_exactly_once(
    registry: RegistryModel,
    events: Seq<RelayEventModel>,
    direction: Direction,
    type_id: u8,
)
    requires
        registry.registered(direction, type_id),
    ensures
        observed_of(run_outputs(registry, events), direction, type_id) == forwarded_of(
            run_outputs(registry, events),
            direction,
            type_id,
        ),
    decreases events.len(),
{
    if events.len() == 0 {
    } else if is_fatal(events[0]) {
    } else {
        lemma_fanout_exactly_once(registry, events.drop_first(), direction, type_id);
        let head = event_outputs(registry, events[0]);
        let tail = run_outputs(registry, events.drop_first());
        lemma_observed_of_concat(head, tail, direction, type_id);
        lemma_forwarded_of_concat(head, tail, direction, type_id);
        lemma_event_head_filters(registry, events[0], direction, direction, type_id);
        assert(observed_of(run_outputs(registry, events), direction, type_id) =~= forwarded_of(
            run_outputs(registry, events),
            direction,
            type_id,
        ));
    }
}

/// A key without a registered handler is never observed: no handler receiver
/// anywhere produces a message of that (direction, type id).
pub proof fn lemma_unregistered_unobserved(
    registry: RegistryModel,
    events: Seq<RelayEventModel>,
    direction: Direction,
    type_id: u8,
)
    requires
        !registry.registered(direction, type_id),
    ensures
        observed_of(run_outputs(registry, events), direction, type_id) == Seq::<
            MessageModel,
        >::empty(),
    decreases events.len(),
{
    if events.len() == 0 {
    } else if is_fatal(events[0]) {
    } else {
        lemma_unregistered_unobserved(registry, events.drop_first(), direction, type_id);
        let head = event_outputs(registry, events[0]);
        let tail = run_outputs(registry, events.drop_first());
        lemma_observed_of_concat(head, tail, direction, type_id);
        lemma_event_head_filters(registry, events[0], direction, direction, type_id);
        assert(observed_of(run_outputs(registry, events), direction, type_id) =~= Seq::<
            MessageModel,
        >::empty());
    }
}

} // verus!
