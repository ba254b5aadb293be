//! Validated, staged construction of a proxy: at most one client endpoint and
//! one server endpoint are accepted, handler registrations are legal in any
//! state, and only a fully configured builder yields a runnable proxy.
//!
//! The builder walks the state machine Empty -> ClientSet / ServerSet -> Both;
//! `try_build` succeeds only in Both, and a successful build empties the
//! builder, so a second build on it is rejected like any other incomplete
//! configuration.

use vstd::prelude::*;

use crate::messages::BuildError;
use crate::messages::Direction;
use crate::messages::TypedMessage;
use crate::messages::MESSAGE_TYPE_COUNT;
use crate::registry::HandlerRegistry;
use crate::registry::RegistryModel;
use crate::relay::Proxy;

verus! {

/// Mathematical model of a builder: the two endpoint slots and the handler
/// registry staged so far.
pub ghost struct BuilderModel<E> {
    pub client: Option<E>,
    pub server: Option<E>,
    pub registry: RegistryModel,
}

/// Staged construction of a [`Proxy`]. `E` is the endpoint handed in by the
/// surrounding process for each side; the builder only stores it, so any
/// representation of a live connection serves.
pub struct ProxyBuilder<E> {
    client: Option<E>,
    server: Option<E>,
    registry: HandlerRegistry,
}

impl<E> View for ProxyBuilder<E> {
    type V = BuilderModel<E>;

    closed spec fn view(&self) -> BuilderModel<E> {
        BuilderModel { client: self.client, server: self.server, registry: self.registry@ }
    }
}

impl<E> ProxyBuilder<E> {
    /// A builder with both endpoint slots empty and no handler registered.
    pub fn new() -> (r: ProxyBuilder<E>)
        ensures
            r@.client is None,
            r@.server is None,
            r@.registry == RegistryModel::empty(),
    {
        ProxyBuilder { client: None, server: None, registry: HandlerRegistry::new() }
    }

    /// Stages the client endpoint. Succeeds exactly when the client slot is
    /// still empty; a second client is refused with `DuplicateEndpoint` and
    /// leaves the builder untouched.
    pub fn try_add_client(&mut self, endpoint: E) -> (r: Result<(), BuildError>)
        ensures
            r is Ok <==> old(self)@.client is None,
            r is Ok ==> final(self)@ == (BuilderModel { client: Some(endpoint), ..old(self)@ }),
            r is Err ==> r == Err::<(), BuildError>(BuildError::DuplicateEndpoint) && *final(self)
                == *old(self),
    {
        if self.client.is_none() {
            self.client = Some(endpoint);
            Ok(())
        } else {
            Err(BuildError::DuplicateEndpoint)
        }
    }

    /// Stages the server endpoint; symmetric to [`Self::try_add_client`].
    pub fn try_add_server(&mut self, endpoint: E) -> (r: Result<(), BuildError>)
        ensures
            r is Ok <==> old(self)@.server is None,
            r is Ok ==> final(self)@ == (BuilderModel { server: Some(endpoint), ..old(self)@ }),
            r is Err ==> r == Err::<(), BuildError>(BuildError::DuplicateEndpoint) && *final(self)
                == *old(self),
    {
        if self.server.is_none() {
            self.server = Some(endpoint);
            Ok(())
        } else {
            Err(BuildError::DuplicateEndpoint)
        }
    }

    /// Registers a fresh observation channel for (direction, type id) and
    /// returns its receiving half at once; the registry keeps only the
    /// sending half. Registering a key twice replaces the old channel and
    /// drops its sender, so the old receiver observes end-of-stream
    /// (replace-and-drop-old policy). A type id outside the catalog is
    /// refused with `InvalidMessageType`.
    pub fn add_handler(&mut self, direction: Direction, message_type_id: u8) -> (r: Result<
        tokio::sync::mpsc::Receiver<TypedMessage>,
        BuildError,
    >)
        ensures
            r is Ok <==> message_type_id < MESSAGE_TYPE_COUNT,
            r is Ok ==> final(self)@ == (BuilderModel {
                registry: old(self)@.registry.register(direction, message_type_id),
                ..old(self)@
            }),
            r is Err ==> r == Err::<tokio::sync::mpsc::Receiver<TypedMessage>, BuildError>(
                BuildError::InvalidMessageType,
            ) && *final(self) == *old(self),
    {
        if message_type_id < MESSAGE_TYPE_COUNT {
            Ok(self.registry.register(direction, message_type_id))
        } else {
            Err(BuildError::InvalidMessageType)
        }
    }

    /// Registers one observation channel for every type id of the catalog in
    /// the given direction, returning the receivers in type-id order.
    pub fn add_handlers_for_direction(&mut self, direction: Direction) -> (r: Vec<
        tokio::sync::mpsc::Receiver<TypedMessage>,
    >)
        ensures
            r@.len() == MESSAGE_TYPE_COUNT as int,
            final(self)@.client == old(self)@.client,
            final(self)@.server == old(self)@.server,
            final(self)@.registry.wf(),
            final(self)@.registry.table(direction.spec_opposite()) == old(
                self,
            )@.registry.table(direction.spec_opposite()),
            forall|t: u8| t < MESSAGE_TYPE_COUNT ==> final(self)@.registry.registered(direction, t),
    {
        self.registry.tables_cover_catalog();
        let mut receivers: Vec<tokio::sync::mpsc::Receiver<TypedMessage>> = Vec::new();
        let mut i: u8 = 0;
        while i < MESSAGE_TYPE_COUNT
            invariant
                i <= MESSAGE_TYPE_COUNT,
                receivers@.len() == i as int,
                self@.client == old(self)@.client,
                self@.server == old(self)@.server,
                self@.registry.wf(),
                self@.registry.table(direction.spec_opposite()) == old(self)@.registry.table(
                    direction.spec_opposite(),
                ),
                forall|t: u8| t < i ==> self@.registry.registered(direction, t),
            decreases MESSAGE_TYPE_COUNT - i,
        {
            let ghost prev = self@.registry;
            let receiver = match self.add_handler(direction, i) {
                Ok(receiver) => receiver,
                Err(_) => {
                    proof {
                        assert(false);
                    }
                    unreached()
                },
            };
            receivers.push(receiver);
            proof {
                assert(self@.registry == prev.register(direction, i));
                assert forall|t: u8| t < i + 1 implies self@.registry.registered(
                    direction,
                    t,
                ) by {
                    if t < i {
                        assert(prev.registered(direction, t));
                    }
                }
            }
            i = i + 1;
        }
        receivers
    }

    /// Yields a runnable proxy exactly when both endpoint slots are occupied;
    /// the proxy takes ownership of both endpoints and of the registry, and
    /// the builder is emptied, so building twice on the same builder fails.
    /// An incomplete configuration is refused with `IncompleteConfiguration`
    /// naming the missing slot(s), and the builder is left untouched.
    pub fn try_build(&mut self) -> (r: Result<Proxy<E>, BuildError>)
        ensures
            r is Ok <==> (old(self)@.client is Some && old(self)@.server is Some),
            r matches Ok(p) ==> {
                &&& (old(self)@.client matches Some(c) && p@.client == c)
                &&& (old(self)@.server matches Some(s) && p@.server == s)
                &&& p@.registry == old(self)@.registry
                &&& final(self)@.client is None
                &&& final(self)@.server is None
                &&& final(self)@.registry == RegistryModel::empty()
            },
            r is Err ==> r == Err::<Proxy<E>, BuildError>(BuildError::IncompleteConfiguration {
                client_missing: old(self)@.client is None,
                server_missing: old(self)@.server is None,
            }) && *final(self) == *old(self),
    {
        if self.client.is_some() && self.server.is_some() {
            let client = match self.client.take() {
                Some(endpoint) => endpoint,
                None => {
                    proof {
                        assert(false);
                    }
                    unreached()
                },
            };
            let server = match self.server.take() {
                Some(endpoint) => endpoint,
                None => {
                    proof {
                        assert(false);
                    }
                    unreached()
                },
            };
            let mut registry = HandlerRegistry::new();
            core::mem::swap(&mut registry, &mut self.registry);
            Ok(Proxy::assemble(client, server, registry))
        } else {
            Err(
                BuildError::IncompleteConfiguration {
                    client_missing: self.client.is_none(),
                    server_missing: self.server.is_none(),
                },
            )
        }
    }
}

} // verus!
