//! Tests of the staged construction: endpoint slots, handler registration
//! and `try_build`.

use proxy_core::BuildError;
use proxy_core::Direction;
use proxy_core::DispatchOutcome;
use proxy_core::ProxyBuilder;
use proxy_core::TypedMessage;
use proxy_core::MESSAGE_TYPE_COUNT;

#[test]
fn try_build_requires_both_endpoints() {
    let mut builder: ProxyBuilder<u32> = ProxyBuilder::new();
    let r = builder.try_build();
    assert_eq!(
        r.err(),
        Some(BuildError::IncompleteConfiguration { client_missing: true, server_missing: true })
    );

    assert!(builder.try_add_client(7).is_ok());
    let r = builder.try_build();
    assert_eq!(
        r.err(),
        Some(BuildError::IncompleteConfiguration { client_missing: false, server_missing: true })
    );

    assert!(builder.try_add_server(9).is_ok());
    let proxy = builder.try_build().expect("both endpoints staged");
    assert_eq!(proxy.shutdown(), (7, 9));

    // A successful build empties the builder: building twice is rejected.
    let r = builder.try_build();
    assert_eq!(
        r.err(),
        Some(BuildError::IncompleteConfiguration { client_missing: true, server_missing: true })
    );
}

#[test]
fn duplicate_client_rejected_without_mutation() {
    let mut builder: ProxyBuilder<u32> = ProxyBuilder::new();
    assert!(builder.try_add_client(7).is_ok());
    assert_eq!(builder.try_add_client(8), Err(BuildError::DuplicateEndpoint));
    assert!(builder.try_add_server(9).is_ok());
    // The failed call left the builder as it was: the first client survives.
    let proxy = builder.try_build().expect("still buildable after the refusal");
    assert_eq!(proxy.shutdown(), (7, 9));
}

#[test]
fn duplicate_server_rejected_without_mutation() {
    let mut builder: ProxyBuilder<u32> = ProxyBuilder::new();
    assert!(builder.try_add_server(9).is_ok());
    assert_eq!(builder.try_add_server(10), Err(BuildError::DuplicateEndpoint));
    assert!(builder.try_add_client(7).is_ok());
    let proxy = builder.try_build().expect("still buildable after the refusal");
    assert_eq!(proxy.shutdown(), (7, 9));
}

#[test]
fn add_handler_rejects_off_catalog_type() {
    let mut builder: ProxyBuilder<u32> = ProxyBuilder::new();
    let r = builder.add_handler(Direction::ClientOrigin, MESSAGE_TYPE_COUNT);
    assert_eq!(r.err(), Some(BuildError::InvalidMessageType));
    assert!(builder.add_handler(Direction::ClientOrigin, MESSAGE_TYPE_COUNT - 1).is_ok());
}

#[test]
fn add_handler_replaces_previous_registration() {
    let mut builder: ProxyBuilder<u32> = ProxyBuilder::new();
    let mut old_rx = builder.add_handler(Direction::ClientOrigin, 5).unwrap();
    let mut new_rx = builder.add_handler(Direction::ClientOrigin, 5).unwrap();
    builder.try_add_client(1).unwrap();
    builder.try_add_server(2).unwrap();
    let proxy = builder.try_build().unwrap();

    let message = TypedMessage::new(Direction::ClientOrigin, 5, vec![0xAB]).unwrap();
    assert_eq!(proxy.dispatch(&message), DispatchOutcome::Delivered);

    // The replaced channel was dropped at re-registration: its receiver
    // observes end-of-stream and never the message.
    assert!(matches!(
        old_rx.try_recv(),
        Err(tokio::sync::mpsc::error::TryRecvError::Disconnected)
    ));
    let observed = new_rx.try_recv().expect("the replacing handler observes the message");
    assert_eq!(observed.direction(), Direction::ClientOrigin);
    assert_eq!(observed.type_id(), 5);
    assert_eq!(observed.payload(), &vec![0xAB]);
}

#[test]
fn add_handlers_for_direction_covers_catalog() {
    let mut builder: ProxyBuilder<u32> = ProxyBuilder::new();
    let mut receivers = builder.add_handlers_for_direction(Direction::ClientOrigin);
    assert_eq!(receivers.len(), usize::from(MESSAGE_TYPE_COUNT));
    builder.try_add_client(1).unwrap();
    builder.try_add_server(2).unwrap();
    let proxy = builder.try_build().unwrap();

    let first = TypedMessage::new(Direction::ClientOrigin, 0, vec![1]).unwrap();
    let last = TypedMessage::new(Direction::ClientOrigin, MESSAGE_TYPE_COUNT - 1, vec![2]).unwrap();
    assert_eq!(proxy.dispatch(&first), DispatchOutcome::Delivered);
    assert_eq!(proxy.dispatch(&last), DispatchOutcome::Delivered);
    assert_eq!(receivers[0].try_recv().unwrap().type_id(), 0);
    assert_eq!(
        receivers[usize::from(MESSAGE_TYPE_COUNT) - 1].try_recv().unwrap().type_id(),
        MESSAGE_TYPE_COUNT - 1
    );

    // The other direction's table is untouched.
    let from_server = TypedMessage::new(Direction::ServerOrigin, 0, vec![3]).unwrap();
    assert_eq!(proxy.dispatch(&from_server), DispatchOutcome::NoHandler);
}

#[test]
fn typed_message_rejects_off_catalog_type() {
    assert!(TypedMessage::new(Direction::ClientOrigin, MESSAGE_TYPE_COUNT, vec![]).is_none());
    let message = TypedMessage::new(Direction::ServerOrigin, MESSAGE_TYPE_COUNT - 1, vec![9, 8])
        .unwrap();
    assert_eq!(message.direction(), Direction::ServerOrigin);
    assert_eq!(message.type_id(), MESSAGE_TYPE_COUNT - 1);
    assert_eq!(message.payload(), &vec![9, 8]);
}

#[test]
fn message_clone_keeps_tags_and_payload() {
    let message = TypedMessage::new(Direction::ClientOrigin, 3, vec![1, 2, 3]).unwrap();
    let copy = message.clone();
    assert_eq!(copy.direction(), message.direction());
    assert_eq!(copy.type_id(), message.type_id());
    assert_eq!(copy.payload(), message.payload());
}
