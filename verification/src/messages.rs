//! Directions, typed messages and the error taxonomy of the proxy core.

use vstd::prelude::*;

verus! {

/// Which peer produced a message. The direction is assigned once, when the
/// message is decoded, and determines both the forwarding target (the
/// opposite peer) and which handler table is consulted.
#[derive(Clone, Copy, PartialEq, Eq, Structural, Debug)]
pub enum Direction {
    ClientOrigin,
    ServerOrigin,
}

impl Direction {
    /// The peer a message of this origin is forwarded to.
    pub open spec fn spec_opposite(self) -> Direction {
        match self {
            Direction::ClientOrigin => Direction::ServerOrigin,
            Direction::ServerOrigin => Direction::ClientOrigin,
        }
    }

    /// The peer a message of this origin is forwarded to.
    pub fn opposite(self) -> (r: Direction)
        ensures
            r == self.spec_opposite(),
    {
        match self {
            Direction::ClientOrigin => Direction::ServerOrigin,
            Direction::ServerOrigin => Direction::ClientOrigin,
        }
    }
}

/// A configuration error of the builder phase. Each is reported
/// synchronously to the caller and leaves the builder usable, so the caller
/// may retry with corrected input.
///
/// `HandshakeFailed` is reserved for the surrounding process: the endpoint
/// handshake is an I/O concern performed before an endpoint is staged here.
#[derive(Clone, Copy, PartialEq, Eq, Structural, Debug)]
pub enum BuildError {
    /// The endpoint slot for that side is already occupied.
    DuplicateEndpoint,
    /// The endpoint failed its pre-staging handshake.
    HandshakeFailed,
    /// `try_build` was called before both endpoint slots were occupied; the
    /// flags name the missing slot(s).
    IncompleteConfiguration { client_missing: bool, server_missing: bool },
    /// A handler registration named a type id outside the protocol catalog.
    InvalidMessageType,
}

/// A runtime error of the relay phase. Every one of these is terminal for the
/// whole proxy: it is reported once as the terminating condition and no
/// retry or resynchronization is attempted.
#[derive(Clone, Copy, PartialEq, Eq, Structural, Debug)]
pub enum RelayError {
    /// The peer on `direction` closed its connection.
    ConnectionClosed { direction: Direction },
    /// Malformed bytes arrived from the peer on `direction`.
    DecodeError { direction: Direction },
    /// Writing toward the peer opposite to `direction` failed.
    WriteError { direction: Direction },
    /// A message could not be re-encoded for forwarding.
    EncodeError,
}

/// Total number of distinct message types in the protocol catalog. A
/// `MessageTypeId` is valid exactly when it is below this bound; the handler
/// tables have one slot per catalog entry.
pub const MESSAGE_TYPE_COUNT: u8 = 44;

/// Mathematical model of a typed message: its origin, its type id, and its
/// payload bytes. The payload is opaque to the proxy core.
pub ghost struct MessageModel {
    pub direction: Direction,
    pub type_id: u8,
    pub payload: Seq<u8>,
}

/// An already-decoded protocol message: an opaque payload tagged with the
/// direction it travels in and its message type id. Both tags are assigned at
/// construction and never mutated.
#[derive(Debug)]
pub struct TypedMessage {
    direction: Direction,
    type_id: u8,
    payload: Vec<u8>,
}

impl View for TypedMessage {
    type V = MessageModel;

    closed spec fn view(&self) -> MessageModel {
        MessageModel { direction: self.direction, type_id: self.type_id, payload: self.payload@ }
    }
}

impl TypedMessage {
    #[verifier::type_invariant]
    spec fn type_inv(self) -> bool {
        self.type_id < MESSAGE_TYPE_COUNT
    }

    /// Tags a decoded payload with its direction and type id. A type id
    /// outside the protocol catalog is refused, so every `TypedMessage` is
    /// well formed.
    pub fn new(direction: Direction, type_id: u8, payload: Vec<u8>) -> (r: Option<TypedMessage>)
        ensures
            r is Some <==> type_id < MESSAGE_TYPE_COUNT,
            r matches Some(m) ==> m@ == (MessageModel {
                direction,
                type_id,
                payload: payload@,
            }),
    {
        if type_id < MESSAGE_TYPE_COUNT {
            Some(TypedMessage { direction, type_id, payload })
        } else {
            None
        }
    }

    pub fn direction(&self) -> (r: Direction)
        ensures
            r == self@.direction,
    {
        self.direction
    }

    pub fn type_id(&self) -> (r: u8)
        ensures
            r == self@.type_id,
            r < MESSAGE_TYPE_COUNT,
    {
        proof {
            use_type_invariant(self);
        }
        self.type_id
    }

    pub fn payload(&self) -> (r: &Vec<u8>)
        ensures
            r@ == self@.payload,
    {
        &self.payload
    }
}

impl Clone for TypedMessage {
    /// The copy handed to an observer equals the source message, tags and
    /// payload alike.
    fn clone(&self) -> (r: Self)
        ensures
            r@ == self@,
    {
        proof {
            use_type_invariant(self);
        }
        let payload = self.payload.clone();
        proof {
            assert(payload@ =~= self.payload@);
        }
        TypedMessage { direction: self.direction, type_id: self.type_id, payload }
    }
}

} // verus!
