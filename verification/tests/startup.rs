use libp2p::identity::Keypair;
use peer_node::cli::{Args, Role};
use peer_node::network::Peer;
use peer_node::utils::error::Error;
use peer_node::utils::unix_epoch_time;

fn valid_peer_id() -> String {
    Keypair::generate_ed25519()
        .public()
        .to_peer_id()
        .to_string()
}

const VALID_ADDR: &str = "/ip4/127.0.0.1/tcp/4001";

#[test]
fn malformed_peer_identifier_fails_fast() {
    match Peer::new("not-a-peer-id".to_string(), VALID_ADDR.to_string()) {
        Err(Error::InvalidPeerId(_)) => {}
        other => panic!("expected the identifier to be rejected, got {:?}", other),
    }
}

#[test]
fn malformed_address_fails_after_the_identifier() {
    match Peer::new(valid_peer_id(), "not an address".to_string()) {
        Err(Error::InvalidMultiaddr(_)) => {}
        other => panic!("expected the address to be rejected, got {:?}", other),
    }
}

#[test]
fn the_identifier_is_checked_first() {
    match Peer::new("garbage".to_string(), "also garbage".to_string()) {
        Err(Error::InvalidPeerId(_)) => {}
        other => panic!("the identifier check comes first, got {:?}", other),
    }
}

#[test]
fn a_valid_bootstrap_peer_is_accepted() {
    let id = valid_peer_id();
    let p = Peer::new(id.clone(), VALID_ADDR.to_string()).expect("both strings are valid");
    assert_eq!(p.id, id);
    assert_eq!(p.addr, VALID_ADDR);
    assert!(!p.setup);
}

#[test]
fn bootstrap_args_fail_fast_on_a_malformed_identifier() {
    let args = Args {
        role: Role::BootstapNode,
        peer_mutli_address: Some(VALID_ADDR.to_string()),
        bootstrap_peer_id: Some("broken!".to_string()),
    };
    match args.bootstrap_peer() {
        Err(Error::InvalidPeerId(_)) => {}
        other => panic!("startup must fail before any listener opens: {:?}", other),
    }
}

#[test]
fn bootstrap_args_without_parameters_are_fine() {
    let args = Args {
        role: Role::Sender,
        peer_mutli_address: None,
        bootstrap_peer_id: None,
    };
    assert!(matches!(args.bootstrap_peer(), Ok(None)));
}

#[test]
fn bootstrap_args_with_both_parameters_yield_a_peer() {
    let id = valid_peer_id();
    let args = Args {
        role: Role::Sender,
        peer_mutli_address: Some(VALID_ADDR.to_string()),
        bootstrap_peer_id: Some(id.clone()),
    };
    match args.bootstrap_peer() {
        Ok(Some(p)) => {
            assert_eq!(p.id, id);
            assert_eq!(p.addr, VALID_ADDR);
        }
        other => panic!("expected a validated peer, got {:?}", other),
    }
}

#[test]
fn role_display_names() {
    assert_eq!(Role::BootstapNode.display_name(), "Receiver");
    assert_eq!(Role::Sender.display_name(), "Sender");
}

#[test]
fn error_messages_name_the_kind() {
    let e = Error::InvalidPeerId("why".to_string());
    assert_eq!(e.kind_message(), "Invalid peer ID");
    assert_eq!(e.detail(), "why");
    let e = Error::InvalidMultiaddr("how".to_string());
    assert_eq!(e.kind_message(), "Invalid multiaddr");
    assert_eq!(e.detail(), "how");
}

#[test]
fn the_clock_reads_nonnegative_milliseconds() {
    let t = unix_epoch_time();
    assert!(t >= 0);
    // well after the year 2020, in milliseconds
    assert!(t > 1_577_836_800_000);
}
