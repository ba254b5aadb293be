//! The handler registry: an O(1) table from (direction, message type id) to
//! an optional observation channel, read-only once the proxy runs.

use vstd::prelude::*;

use crate::channel::new_handler_channel;
use crate::channel::try_send_message;
use crate::channel::SendStatus;
use crate::messages::Direction;
use crate::messages::TypedMessage;
use crate::messages::MESSAGE_TYPE_COUNT;

verus! {

/// Buffer capacity of each observation channel. The relay never waits on a
/// full buffer: a copy that does not fit is dropped.
pub const HANDLER_CHANNEL_CAPACITY: usize = 32;

/// Mathematical model of the registry: one table per direction, each with a
/// slot per catalog type id saying whether a handler is registered there.
pub ghost struct RegistryModel {
    pub client: Seq<bool>,
    pub server: Seq<bool>,
}

impl RegistryModel {
    /// Both tables are dense over the catalog: one slot per type id.
    pub open spec fn wf(self) -> bool {
        &&& self.client.len() == MESSAGE_TYPE_COUNT
        &&& self.server.len() == MESSAGE_TYPE_COUNT
    }

    /// The registry of a fresh builder: no handler anywhere.
    pub open spec fn empty() -> RegistryModel {
        RegistryModel {
            client: Seq::new(MESSAGE_TYPE_COUNT as nat, |i: int| false),
            server: Seq::new(MESSAGE_TYPE_COUNT as nat, |i: int| false),
        }
    }

    /// The handler table consulted for messages of the given origin.
    pub open spec fn table(self, direction: Direction) -> Seq<bool> {
        match direction {
            Direction::ClientOrigin => self.client,
            Direction::ServerOrigin => self.server,
        }
    }

    /// Whether a handler is registered for (direction, type_id).
    pub open spec fn registered(self, direction: Direction, type_id: u8) -> bool
        recommends
            type_id < MESSAGE_TYPE_COUNT,
    {
        self.table(direction)[type_id as int]
    }

    /// The registry after a registration for (direction, type_id).
    pub open spec fn register(self, direction: Direction, type_id: u8) -> RegistryModel {
        match direction {
            Direction::ClientOrigin => RegistryModel {
                client: self.client.update(type_id as int, true),
                ..self
            },
            Direction::ServerOrigin => RegistryModel {
                server: self.server.update(type_id as int, true),
                ..self
            },
        }
    }
}

/// Outcome of one dispatch: what became of the observation copy. Only
/// `NoHandler` says anything about the registry; the other three report the
/// channel's answer to a non-blocking send. None of them ever stalls or
/// fails the relay's forward path.
#[derive(Clone, Copy, PartialEq, Eq, Structural, Debug)]
pub enum DispatchOutcome {
    /// A handler is registered and the copy was placed in its channel.
    Delivered,
    /// A handler is registered but its channel buffer was full; the copy was
    /// dropped (observation is best-effort).
    DroppedFull,
    /// A handler is registered but its consumer is gone; the copy was
    /// dropped.
    DroppedClosed,
    /// No handler is registered for this message's (direction, type id).
    NoHandler,
}

/// Per-direction, per-type table of observation channel senders. Built during
/// the builder phase; the running proxy only reads it.
pub struct HandlerRegistry {
    client_slots: Vec<Option<tokio::sync::mpsc::Sender<TypedMessage>>>,
    server_slots: Vec<Option<tokio::sync::mpsc::Sender<TypedMessage>>>,
}

impl View for HandlerRegistry {
    type V = RegistryModel;

    closed spec fn view(&self) -> RegistryModel {
        RegistryModel {
            client: self.client_slots@.map_values(
                |s: Option<tokio::sync::mpsc::Sender<TypedMessage>>| s is Some,
            ),
            server: self.server_slots@.map_values(
                |s: Option<tokio::sync::mpsc::Sender<TypedMessage>>| s is Some,
            ),
        }
    }
}

impl HandlerRegistry {
    #[verifier::type_invariant]
    spec fn type_inv(self) -> bool {
        &&& self.client_slots@.len() == MESSAGE_TYPE_COUNT
        &&& self.server_slots@.len() == MESSAGE_TYPE_COUNT
    }

    /// A registry with no handler registered anywhere.
    pub fn new() -> (r: HandlerRegistry)
        ensures
            r@ == RegistryModel::empty(),
    {
        let mut client_slots: Vec<Option<tokio::sync::mpsc::Sender<TypedMessage>>> = Vec::new();
        let mut server_slots: Vec<Option<tokio::sync::mpsc::Sender<TypedMessage>>> = Vec::new();
        let mut i: u8 = 0;
        while i < MESSAGE_TYPE_COUNT
            invariant
                i <= MESSAGE_TYPE_COUNT,
                client_slots@.len() == i as int,
                server_slots@.len() == i as int,
                forall|j: int| 0 <= j < i as int ==> client_slots@[j] is None,
                forall|j: int| 0 <= j < i as int ==> server_slots@[j] is None,
            decreases MESSAGE_TYPE_COUNT - i,
        {
            client_slots.push(None);
            server_slots.push(None);
            i = i + 1;
        }
        let r = HandlerRegistry { client_slots, server_slots };
        proof {
            assert(r@.client =~= RegistryModel::empty().client);
            assert(r@.server =~= RegistryModel::empty().server);
        }
        r
    }

    /// Every registry's tables are dense over the catalog - one slot per type
    /// id - by the type's internal invariant; callers that track the registry
    /// through its model fetch that fact here.
    pub fn tables_cover_catalog(&self)
        ensures
            self@.wf(),
    {
        proof {
            use_type_invariant(self);
        }
    }

    /// Registers a fresh bounded channel for (direction, type_id) and returns
    /// its receiving half. If the key already had a handler, the old sender
    /// is replaced (and dropped, which closes the old receiver's stream):
    /// registration is replace-and-drop-old.
    pub(crate) fn register(
        &mut self,
        direction: Direction,
        type_id: u8,
    ) -> (r: tokio::sync::mpsc::Receiver<TypedMessage>)
        requires
            type_id < MESSAGE_TYPE_COUNT,
        ensures
            final(self)@ == old(self)@.register(direction, type_id),
    {
        proof {
            use_type_invariant(&*self);
        }
        let (sender, receiver) = new_handler_channel(HANDLER_CHANNEL_CAPACITY);
        match direction {
            Direction::ClientOrigin => {
                self.client_slots[type_id as usize] = Some(sender);
            },
            Direction::ServerOrigin => {
                self.server_slots[type_id as usize] = Some(sender);
            },
        }
        proof {
            assert(self@.client =~= old(self)@.register(direction, type_id).client);
            assert(self@.server =~= old(self)@.register(direction, type_id).server);
        }
        receiver
    }

    /// Looks up the slot for the message's (direction, type id) and, if a
    /// handler is registered there, offers a copy of the message to its
    /// channel without blocking. A full or closed channel never stalls or
    /// fails the caller: the copy is silently dropped and the outcome says
    /// so.
    pub fn dispatch(&self, message: &TypedMessage) -> (r: DispatchOutcome)
        ensures
            r is NoHandler <==> !self@.registered(message@.direction, message@.type_id),
    {
        proof {
            use_type_invariant(&*self);
        }
        let slots = match message.direction() {
            Direction::ClientOrigin => &self.client_slots,
            Direction::ServerOrigin => &self.server_slots,
        };
        match &slots[message.type_id() as usize] {
            Some(sender) => match try_send_message(sender, message.clone()) {
                SendStatus::Accepted => DispatchOutcome::Delivered,
                SendStatus::Full => DispatchOutcome::DroppedFull,
                SendStatus::Closed => DispatchOutcome::DroppedClosed,
            },
            None => DispatchOutcome::NoHandler,
        }
    }
}

} // verus!
