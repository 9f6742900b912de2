use peer_node::cli::Role;
use peer_node::comms::message::Message;
use peer_node::network::event::{
    Action, Coordinator, DhtOutcome, LogEvent, NodeEvent, PublishError, Quorum,
};

fn directory() -> Coordinator {
    Coordinator::new(Role::BootstapNode, "records".to_string())
}

fn sender() -> Coordinator {
    Coordinator::new(Role::Sender, "records".to_string())
}

#[test]
fn repeated_connection_keeps_one_routing_entry() {
    let mut c = directory();
    let actions = c.handle_event(NodeEvent::ConnectionEstablished {
        peer: "peer-x".to_string(),
        address: "/ip4/10.0.0.1/tcp/4001".to_string(),
    });
    assert!(actions.is_empty());
    let first_freshness = c.routing[0].freshness;
    c.handle_event(NodeEvent::ConnectionEstablished {
        peer: "peer-x".to_string(),
        address: "/ip4/10.0.0.1/tcp/4001".to_string(),
    });
    assert_eq!(c.routing.len(), 1);
    assert_eq!(c.count_entries(&"peer-x".to_string()), 1);
    assert_eq!(c.routing[0].addresses.len(), 1);
    assert!(c.routing[0].freshness > first_freshness);
}

#[test]
fn a_new_address_for_a_known_peer_is_recorded_once() {
    let mut c = directory();
    c.handle_event(NodeEvent::ConnectionEstablished {
        peer: "peer-x".to_string(),
        address: "/ip4/10.0.0.1/tcp/4001".to_string(),
    });
    c.handle_event(NodeEvent::ConnectionEstablished {
        peer: "peer-x".to_string(),
        address: "/ip4/10.0.0.2/tcp/4001".to_string(),
    });
    assert_eq!(c.routing.len(), 1);
    assert_eq!(c.routing[0].addresses.len(), 2);
}

#[test]
fn distinct_peers_get_distinct_entries() {
    let mut c = directory();
    c.handle_event(NodeEvent::ConnectionEstablished {
        peer: "peer-a".to_string(),
        address: "/ip4/10.0.0.1/tcp/4001".to_string(),
    });
    c.handle_event(NodeEvent::ConnectionEstablished {
        peer: "peer-b".to_string(),
        address: "/ip4/10.0.0.2/tcp/4001".to_string(),
    });
    assert_eq!(c.routing.len(), 2);
    assert_eq!(c.count_entries(&"peer-a".to_string()), 1);
    assert_eq!(c.count_entries(&"peer-b".to_string()), 1);
}

#[test]
fn connection_closed_logs_and_evicts_nothing() {
    let mut c = directory();
    c.handle_event(NodeEvent::ConnectionEstablished {
        peer: "peer-x".to_string(),
        address: "/ip4/10.0.0.1/tcp/4001".to_string(),
    });
    let actions = c.handle_event(NodeEvent::ConnectionClosed {
        peer: "peer-x".to_string(),
        cause: "remote hung up".to_string(),
    });
    assert_eq!(c.routing.len(), 1);
    assert_eq!(actions.len(), 1);
    match &actions[0] {
        Action::Log {
            entry: LogEvent::ConnectionClosed { peer, cause },
        } => {
            assert_eq!(peer.as_str(), "peer-x");
            assert_eq!(cause.as_str(), "remote hung up");
        }
        other => panic!("expected a log entry, got {:?}", other),
    }
}

#[test]
fn discovered_peers_are_registered_with_the_address_book() {
    let mut c = directory();
    let actions = c.handle_event(NodeEvent::PeersDiscovered {
        peers: vec![
            ("peer-a".to_string(), "/ip4/10.0.0.1/tcp/1".to_string()),
            ("peer-b".to_string(), "/ip4/10.0.0.2/tcp/2".to_string()),
        ],
    });
    assert_eq!(actions.len(), 2);
    match &actions[0] {
        Action::RegisterAddress { peer, address } => {
            assert_eq!(peer.as_str(), "peer-a");
            assert_eq!(address.as_str(), "/ip4/10.0.0.1/tcp/1");
        }
        other => panic!("expected an address-book registration, got {:?}", other),
    }
    match &actions[1] {
        Action::RegisterAddress { peer, address } => {
            assert_eq!(peer.as_str(), "peer-b");
            assert_eq!(address.as_str(), "/ip4/10.0.0.2/tcp/2");
        }
        other => panic!("expected an address-book registration, got {:?}", other),
    }
}

#[test]
fn marker_body_is_classified_distinctly() {
    let wrapped = Message::from_wire(&b"RememberMe".to_vec());
    match wrapped {
        Message::Transaction(inner) => {
            assert_eq!(*inner, Message::Comms("RememberMe".to_string()));
        }
        other => panic!("the marker must not classify as plain comms: {:?}", other),
    }
    let plain = Message::from_wire(&b"Remember me?".to_vec());
    assert_eq!(plain, Message::Comms("Remember me?".to_string()));
}

#[test]
fn malformed_bytes_wrap_lossily_and_never_fail() {
    let wrapped = Message::from_wire(&vec![0x68, 0x69, 0xff, 0xfe]);
    match wrapped {
        Message::Comms(s) => assert!(s.starts_with("hi")),
        other => panic!("expected plain comms, got {:?}", other),
    }
}

#[test]
fn gossip_delivery_issues_put_then_closest_peers() {
    let mut c = directory();
    let actions = c.handle_event(NodeEvent::GossipDelivered {
        source: "P1".to_string(),
        body: b"hello".to_vec(),
    });
    assert_eq!(actions.len(), 3);
    match &actions[0] {
        Action::Log {
            entry: LogEvent::MessageReceived { message },
        } => assert_eq!(message, &Message::Comms("hello".to_string())),
        other => panic!("expected the wrapped message first, got {:?}", other),
    }
    let put_query = match &actions[1] {
        Action::PutRecord {
            query,
            key,
            value,
            quorum,
        } => {
            assert_eq!(key, &b"key".to_vec());
            assert_eq!(value, &b"hello".to_vec());
            assert_eq!(*quorum, Quorum::All);
            *query
        }
        other => panic!("expected a record put, got {:?}", other),
    };
    match &actions[2] {
        Action::FindClosestPeers { query, key } => {
            assert_eq!(key, &b"key".to_vec());
            assert_ne!(*query, put_query);
        }
        other => panic!("expected a closest-peers query, got {:?}", other),
    }
}

#[test]
fn operator_input_publishes_on_the_sender() {
    let mut c = sender();
    let actions = c.handle_event(NodeEvent::OperatorInput {
        line: "a line to share".to_string(),
    });
    assert_eq!(actions.len(), 1);
    match &actions[0] {
        Action::Publish { topic, payload } => {
            assert_eq!(topic.as_str(), "records");
            assert_eq!(payload, &b"a line to share".to_vec());
        }
        other => panic!("expected a publication, got {:?}", other),
    }
}

#[test]
fn operator_input_is_ignored_on_the_directory() {
    let mut c = directory();
    let actions = c.handle_event(NodeEvent::OperatorInput {
        line: "a line".to_string(),
    });
    assert!(actions.is_empty());
}

#[test]
fn publish_failure_is_reported_and_the_loop_continues() {
    let mut c = sender();
    c.handle_event(NodeEvent::OperatorInput {
        line: "first try".to_string(),
    });
    let actions = c.handle_event(NodeEvent::PublishCompleted {
        result: Err(PublishError::NoPeers),
    });
    assert_eq!(actions.len(), 1);
    match &actions[0] {
        Action::Log {
            entry: LogEvent::PublishFailed { error },
        } => assert!(matches!(error, PublishError::NoPeers)),
        other => panic!("expected the failure to be logged, got {:?}", other),
    }
    // the loop goes on: the next operator line still publishes
    let next = c.handle_event(NodeEvent::OperatorInput {
        line: "second try".to_string(),
    });
    assert_eq!(next.len(), 1);
    assert!(matches!(next[0], Action::Publish { .. }));
}

#[test]
fn dht_outcomes_are_logged_distinctly() {
    let mut c = directory();
    let outcomes = vec![
        DhtOutcome::RecordFound {
            key: b"key".to_vec(),
            value: b"v".to_vec(),
        },
        DhtOutcome::RecordError {
            detail: "not found".to_string(),
        },
        DhtOutcome::PutAcknowledged { key: b"key".to_vec() },
        DhtOutcome::PutFailed {
            detail: "quorum failed".to_string(),
        },
        DhtOutcome::ProviderAcknowledged { key: b"key".to_vec() },
        DhtOutcome::ProviderFailed {
            detail: "timed out".to_string(),
        },
    ];
    for outcome in outcomes {
        let actions = c.handle_event(NodeEvent::DhtProgress { outcome });
        assert_eq!(actions.len(), 1);
        assert!(matches!(
            actions[0],
            Action::Log {
                entry: LogEvent::DhtOutcome { .. }
            }
        ));
    }
    // none of these touched the routing table or ended the loop
    assert!(c.routing.is_empty());
}
