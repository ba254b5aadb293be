//! Core of a bidirectional protocol proxy: validated two-phase construction
//! of a proxy from two half-open connections, per-direction and
//! per-message-type handler registration, and the per-event decision logic of
//! the relay loop that forwards every message to its peer and fans a copy out
//! to any registered observer.
//!
//! The surrounding process owns the sockets and the codec; this crate owns the
//! rules: which peer a message is forwarded to, which observer channel (if
//! any) receives a copy, when construction may succeed, and which terminating
//! error each fatal event produces.

pub mod builder;
mod channel;
pub mod framing;
pub mod messages;
pub mod registry;
pub mod relay;

pub use builder::ProxyBuilder;
pub use framing::parse_frame_header;
pub use messages::BuildError;
pub use messages::Direction;
pub use messages::MessageModel;
pub use messages::RelayError;
pub use messages::TypedMessage;
pub use messages::MESSAGE_TYPE_COUNT;
pub use registry::DispatchOutcome;
pub use registry::HandlerRegistry;
pub use registry::HANDLER_CHANNEL_CAPACITY;
pub use relay::Proxy;
pub use relay::RelayEvent;
pub use relay::RelayStep;
