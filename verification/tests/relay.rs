//! Tests of the relay engine's decisions: forwarding, fan-out, termination.

use proxy_core::Direction;
use proxy_core::DispatchOutcome;
use proxy_core::Proxy;
use proxy_core::ProxyBuilder;
use proxy_core::RelayError;
use proxy_core::RelayEvent;
use proxy_core::RelayStep;
use proxy_core::TypedMessage;
use proxy_core::HANDLER_CHANNEL_CAPACITY;

fn bare_proxy() -> Proxy<u32> {
    let mut builder: ProxyBuilder<u32> = ProxyBuilder::new();
    builder.try_add_client(1).unwrap();
    builder.try_add_server(2).unwrap();
    builder.try_build().unwrap()
}

#[test]
fn unobserved_message_is_forwarded_only() {
    // Client sends a type-3 message and nothing is registered for it: the
    // step says "forward to the server" and no handler anywhere produces it.
    let mut builder: ProxyBuilder<u32> = ProxyBuilder::new();
    let mut other_rx = builder.add_handler(Direction::ServerOrigin, 3).unwrap();
    builder.try_add_client(1).unwrap();
    builder.try_add_server(2).unwrap();
    let proxy = builder.try_build().unwrap();

    let message = TypedMessage::new(Direction::ClientOrigin, 3, vec![0x10]).unwrap();
    let step = proxy.on_event(&RelayEvent::MessageArrived { message });
    assert_eq!(step, RelayStep::Forward { destination: Direction::ServerOrigin });

    let message = TypedMessage::new(Direction::ClientOrigin, 3, vec![0x10]).unwrap();
    assert_eq!(proxy.dispatch(&message), DispatchOutcome::NoHandler);
    assert!(matches!(
        other_rx.try_recv(),
        Err(tokio::sync::mpsc::error::TryRecvError::Empty)
    ));
}

#[test]
fn observed_message_reaches_handler_after_forward() {
    // A handler is registered for (ServerOrigin, 7); the server sends a
    // type-7 message: it is forwarded to the client and the handler receives
    // a matching copy.
    let mut builder: ProxyBuilder<u32> = ProxyBuilder::new();
    let mut rx = builder.add_handler(Direction::ServerOrigin, 7).unwrap();
    builder.try_add_client(1).unwrap();
    builder.try_add_server(2).unwrap();
    let proxy = builder.try_build().unwrap();

    let message = TypedMessage::new(Direction::ServerOrigin, 7, vec![4, 5, 6]).unwrap();
    let step = proxy.on_event(&RelayEvent::MessageArrived {
        message: TypedMessage::new(Direction::ServerOrigin, 7, vec![4, 5, 6]).unwrap(),
    });
    assert_eq!(step, RelayStep::Forward { destination: Direction::ClientOrigin });
    assert_eq!(proxy.dispatch(&message), DispatchOutcome::Delivered);

    let observed = rx.try_recv().expect("the handler observes the forwarded message");
    assert_eq!(observed.direction(), Direction::ServerOrigin);
    assert_eq!(observed.type_id(), 7);
    assert_eq!(observed.payload(), &vec![4, 5, 6]);

    // Exactly one copy per forwarded message: never a duplicate.
    assert!(matches!(
        rx.try_recv(),
        Err(tokio::sync::mpsc::error::TryRecvError::Empty)
    ));
}

#[test]
fn arrival_order_is_preserved_per_direction() {
    let mut builder: ProxyBuilder<u32> = ProxyBuilder::new();
    let mut rx = builder.add_handler(Direction::ClientOrigin, 1).unwrap();
    builder.try_add_client(1).unwrap();
    builder.try_add_server(2).unwrap();
    let proxy = builder.try_build().unwrap();

    for n in 0u8..3 {
        let message = TypedMessage::new(Direction::ClientOrigin, 1, vec![n]).unwrap();
        let step = proxy.on_event(&RelayEvent::MessageArrived { message });
        assert_eq!(step, RelayStep::Forward { destination: Direction::ServerOrigin });
        let message = TypedMessage::new(Direction::ClientOrigin, 1, vec![n]).unwrap();
        assert_eq!(proxy.dispatch(&message), DispatchOutcome::Delivered);
    }
    // The observer sees the messages in the order they arrived.
    for n in 0u8..3 {
        assert_eq!(rx.try_recv().unwrap().payload(), &vec![n]);
    }
}

#[test]
fn client_close_terminates_and_closes_handler_streams() {
    let mut builder: ProxyBuilder<u32> = ProxyBuilder::new();
    let mut rx = builder.add_handler(Direction::ClientOrigin, 2).unwrap();
    builder.try_add_client(1).unwrap();
    builder.try_add_server(2).unwrap();
    let proxy = builder.try_build().unwrap();

    let step = proxy.on_event(&RelayEvent::PeerClosed { direction: Direction::ClientOrigin });
    assert_eq!(
        step,
        RelayStep::Terminate {
            error: RelayError::ConnectionClosed { direction: Direction::ClientOrigin }
        }
    );

    // Shutdown hands both endpoints back for closing and drops the registry,
    // so every handler receiver observes end-of-stream.
    assert_eq!(proxy.shutdown(), (1, 2));
    assert!(matches!(
        rx.try_recv(),
        Err(tokio::sync::mpsc::error::TryRecvError::Disconnected)
    ));
}

#[test]
fn malformed_frame_terminates_without_dispatch() {
    let mut builder: ProxyBuilder<u32> = ProxyBuilder::new();
    let mut rx = builder.add_handler(Direction::ServerOrigin, 7).unwrap();
    builder.try_add_client(1).unwrap();
    builder.try_add_server(2).unwrap();
    let proxy = builder.try_build().unwrap();

    let step = proxy.on_event(&RelayEvent::MalformedFrame { direction: Direction::ServerOrigin });
    assert_eq!(
        step,
        RelayStep::Terminate {
            error: RelayError::DecodeError { direction: Direction::ServerOrigin }
        }
    );

    // No partially-decoded message was forwarded or dispatched.
    assert!(matches!(
        rx.try_recv(),
        Err(tokio::sync::mpsc::error::TryRecvError::Empty)
    ));
}

#[test]
fn write_and_encode_failures_terminate() {
    let proxy = bare_proxy();
    let step = proxy.on_event(&RelayEvent::WriteFailed { direction: Direction::ClientOrigin });
    assert_eq!(
        step,
        RelayStep::Terminate {
            error: RelayError::WriteError { direction: Direction::ClientOrigin }
        }
    );
    let step = proxy.on_event(&RelayEvent::EncodeFailed);
    assert_eq!(step, RelayStep::Terminate { error: RelayError::EncodeError });
}

#[test]
fn dispatch_drops_on_full_buffer_without_stalling() {
    let mut builder: ProxyBuilder<u32> = ProxyBuilder::new();
    let mut rx = builder.add_handler(Direction::ClientOrigin, 0).unwrap();
    builder.try_add_client(1).unwrap();
    builder.try_add_server(2).unwrap();
    let proxy = builder.try_build().unwrap();

    for n in 0..HANDLER_CHANNEL_CAPACITY {
        let message = TypedMessage::new(Direction::ClientOrigin, 0, vec![n as u8]).unwrap();
        assert_eq!(proxy.dispatch(&message), DispatchOutcome::Delivered);
    }
    // The buffer is full: the next copy is dropped, the relay is not stalled.
    let overflow = TypedMessage::new(Direction::ClientOrigin, 0, vec![0xFF]).unwrap();
    assert_eq!(proxy.dispatch(&overflow), DispatchOutcome::DroppedFull);

    // The consumer still sees the accepted copies, in dispatch order.
    for n in 0..HANDLER_CHANNEL_CAPACITY {
        let observed = rx.try_recv().expect("buffered copy");
        assert_eq!(observed.payload(), &vec![n as u8]);
    }
    assert!(matches!(
        rx.try_recv(),
        Err(tokio::sync::mpsc::error::TryRecvError::Empty)
    ));
}

#[test]
fn dispatch_reports_gone_consumer() {
    let mut builder: ProxyBuilder<u32> = ProxyBuilder::new();
    let rx = builder.add_handler(Direction::ClientOrigin, 9).unwrap();
    builder.try_add_client(1).unwrap();
    builder.try_add_server(2).unwrap();
    let proxy = builder.try_build().unwrap();

    drop(rx);
    let message = TypedMessage::new(Direction::ClientOrigin, 9, vec![]).unwrap();
    assert_eq!(proxy.dispatch(&message), DispatchOutcome::DroppedClosed);
}
