use rendezvous_server::transport::{authenticate_and_multiplex, Multiplexer};
use rendezvous_server::upgrade::{
    Connection, ConnectionError, Connections, Role, UpgradeEvent,
};

fn named(remote: Vec<Multiplexer>) -> UpgradeEvent {
    UpgradeEvent::MultiplexersNamed { remote }
}

fn completed(peer: &str) -> UpgradeEvent {
    UpgradeEvent::HandshakeCompleted {
        peer: peer.to_string(),
    }
}

fn authenticated(role: Role, established_at: u64) -> Connection {
    Connection::Authenticated {
        role,
        established_at,
        peer: "12D3KooWRemote".to_string(),
    }
}

#[test]
fn an_upgrade_runs_through_version_handshake_and_multiplexer() {
    let plan = authenticate_and_multiplex();
    let raw = Connection::established(Role::Listener, 100);
    assert_eq!(
        raw,
        Connection::Raw {
            role: Role::Listener,
            established_at: 100
        }
    );
    let agreed = raw.advance(&plan, UpgradeEvent::VersionAgreed, 101);
    assert_eq!(
        agreed,
        Connection::VersionAgreed {
            role: Role::Listener,
            established_at: 100
        }
    );
    let authenticated = agreed.advance(&plan, completed("12D3KooWRemote"), 102);
    assert_eq!(
        authenticated,
        Connection::Authenticated {
            role: Role::Listener,
            established_at: 100,
            peer: "12D3KooWRemote".to_string()
        }
    );
    let negotiated = authenticated.advance(
        &plan,
        named(vec![Multiplexer::Mplex, Multiplexer::Yamux]),
        103,
    );
    assert_eq!(
        negotiated,
        Connection::Negotiated {
            peer: "12D3KooWRemote".to_string(),
            multiplexer: Multiplexer::Mplex
        }
    );
    assert!(!negotiated.is_upgrading());
}

#[test]
fn two_ends_of_one_connection_converge() {
    let plan = authenticate_and_multiplex();
    let dialer = Connection::established(Role::Dialer, 0)
        .advance(&plan, UpgradeEvent::VersionAgreed, 1)
        .advance(&plan, completed("listener"), 2)
        .advance(&plan, named(plan.multiplexers.clone()), 3);
    let listener = Connection::established(Role::Listener, 0)
        .advance(&plan, UpgradeEvent::VersionAgreed, 1)
        .advance(&plan, completed("dialer"), 2)
        .advance(&plan, named(plan.multiplexers.clone()), 3);
    assert_eq!(
        dialer,
        Connection::Negotiated {
            peer: "listener".to_string(),
            multiplexer: Multiplexer::Yamux
        }
    );
    assert_eq!(
        listener,
        Connection::Negotiated {
            peer: "dialer".to_string(),
            multiplexer: Multiplexer::Yamux
        }
    );
}

#[test]
fn the_dialer_prefers_its_own_order() {
    let plan = authenticate_and_multiplex();
    let next = authenticated(Role::Dialer, 0).advance(
        &plan,
        named(vec![Multiplexer::Mplex, Multiplexer::Yamux]),
        1,
    );
    assert_eq!(
        next,
        Connection::Negotiated {
            peer: "12D3KooWRemote".to_string(),
            multiplexer: Multiplexer::Yamux
        }
    );
}

#[test]
fn an_upgrade_has_twenty_seconds() {
    let plan = authenticate_and_multiplex();
    let connection = authenticated(Role::Listener, 1000);
    assert!(!connection.is_overdue(&plan, 1000));
    assert!(!connection.is_overdue(&plan, 1019));
    assert!(connection.is_overdue(&plan, 1020));
    assert!(connection.is_overdue(&plan, 5000));
    assert!(!connection.is_overdue(&plan, 999));
}

#[test]
fn an_event_in_the_last_second_still_counts() {
    let plan = authenticate_and_multiplex();
    let next = authenticated(Role::Listener, 1000).advance(&plan, named(vec![Multiplexer::Yamux]), 1019);
    assert_eq!(
        next,
        Connection::Negotiated {
            peer: "12D3KooWRemote".to_string(),
            multiplexer: Multiplexer::Yamux
        }
    );
}

#[test]
fn an_event_after_twenty_seconds_aborts_with_timeout() {
    let plan = authenticate_and_multiplex();
    let next = authenticated(Role::Listener, 1000).advance(&plan, named(vec![Multiplexer::Yamux]), 1020);
    assert_eq!(next, Connection::Aborted(ConnectionError::UpgradeTimeout));
    let raw = Connection::established(Role::Listener, 0).advance(&plan, UpgradeEvent::VersionAgreed, 20);
    assert_eq!(raw, Connection::Aborted(ConnectionError::UpgradeTimeout));
}

#[test]
fn the_clock_aborts_what_is_overdue_and_nothing_else() {
    let plan = authenticate_and_multiplex();
    let connection = authenticated(Role::Listener, 10);
    assert_eq!(connection.tick(&plan, 29), connection);
    assert_eq!(
        connection.tick(&plan, 30),
        Connection::Aborted(ConnectionError::UpgradeTimeout)
    );
    let done = Connection::Negotiated {
        peer: "p".to_string(),
        multiplexer: Multiplexer::Yamux,
    };
    assert_eq!(done.tick(&plan, 1_000_000), done);
    assert!(!done.is_overdue(&plan, 1_000_000));
}

#[test]
fn a_failed_handshake_aborts_the_connection() {
    let plan = authenticate_and_multiplex();
    let agreed = Connection::VersionAgreed {
        role: Role::Listener,
        established_at: 0,
    };
    assert_eq!(
        agreed.advance(&plan, UpgradeEvent::HandshakeFailed, 1),
        Connection::Aborted(ConnectionError::HandshakeFailed)
    );
}

#[test]
fn a_closed_socket_aborts_the_connection() {
    let plan = authenticate_and_multiplex();
    assert_eq!(
        Connection::established(Role::Listener, 0).advance(&plan, UpgradeEvent::Closed, 1),
        Connection::Aborted(ConnectionError::Disconnected)
    );
}

#[test]
fn a_refused_version_aborts_the_connection() {
    let plan = authenticate_and_multiplex();
    assert_eq!(
        Connection::established(Role::Dialer, 0).advance(&plan, UpgradeEvent::VersionRefused, 1),
        Connection::Aborted(ConnectionError::NegotiationFailed)
    );
}

#[test]
fn no_common_multiplexer_aborts_the_connection() {
    let plan = authenticate_and_multiplex();
    assert_eq!(
        authenticated(Role::Listener, 0).advance(&plan, named(Vec::new()), 1),
        Connection::Aborted(ConnectionError::UnsupportedMultiplexer)
    );
}

#[test]
fn steps_out_of_order_abort_the_connection() {
    let plan = authenticate_and_multiplex();
    let raw = Connection::established(Role::Listener, 0);
    assert_eq!(
        raw.advance(&plan, completed("p"), 1),
        Connection::Aborted(ConnectionError::NegotiationFailed)
    );
    assert_eq!(
        raw.advance(&plan, named(vec![Multiplexer::Yamux]), 1),
        Connection::Aborted(ConnectionError::NegotiationFailed)
    );
    assert_eq!(
        authenticated(Role::Listener, 0).advance(&plan, UpgradeEvent::VersionAgreed, 1),
        Connection::Aborted(ConnectionError::NegotiationFailed)
    );
}

#[test]
fn a_finished_connection_stays_as_it_is() {
    let plan = authenticate_and_multiplex();
    let done = Connection::Negotiated {
        peer: "p".to_string(),
        multiplexer: Multiplexer::Mplex,
    };
    assert_eq!(done.advance(&plan, UpgradeEvent::Closed, 99), done);
    let aborted = Connection::Aborted(ConnectionError::HandshakeFailed);
    assert_eq!(aborted.advance(&plan, UpgradeEvent::VersionAgreed, 0), aborted);
    assert!(!aborted.is_upgrading());
    assert!(Connection::established(Role::Dialer, 0).is_upgrading());
}

#[test]
fn a_timeout_aborts_that_connection_only() {
    let plan = authenticate_and_multiplex();
    let mut table = Connections::new();
    let slow = table.accept(Role::Listener, 0);
    let fast = table.accept(Role::Listener, 15);
    assert_eq!((slow, fast), (0, 1));
    assert_eq!(table.len(), 2);

    table.deliver(&plan, fast, UpgradeEvent::VersionAgreed, 16);
    table.deliver(&plan, fast, completed("fast peer"), 17);
    table.tick(&plan, 20);
    assert_eq!(
        table.get(slow),
        Some(Connection::Aborted(ConnectionError::UpgradeTimeout))
    );
    assert_eq!(
        table.get(fast),
        Some(Connection::Authenticated {
            role: Role::Listener,
            established_at: 15,
            peer: "fast peer".to_string()
        })
    );

    table.deliver(&plan, fast, named(vec![Multiplexer::Yamux]), 21);
    assert_eq!(
        table.get(fast),
        Some(Connection::Negotiated {
            peer: "fast peer".to_string(),
            multiplexer: Multiplexer::Yamux
        })
    );
    assert_eq!(
        table.get(slow),
        Some(Connection::Aborted(ConnectionError::UpgradeTimeout))
    );
}

#[test]
fn a_late_event_times_out_one_connection_and_leaves_the_other() {
    let plan = authenticate_and_multiplex();
    let mut table = Connections::new();
    table.accept(Role::Listener, 0);
    table.accept(Role::Dialer, 10);
    table.deliver(&plan, 0, UpgradeEvent::VersionAgreed, 25);
    assert_eq!(
        table.get(0),
        Some(Connection::Aborted(ConnectionError::UpgradeTimeout))
    );
    assert_eq!(
        table.get(1),
        Some(Connection::Raw {
            role: Role::Dialer,
            established_at: 10
        })
    );
}

#[test]
fn an_event_for_no_connection_changes_nothing() {
    let plan = authenticate_and_multiplex();
    let mut table = Connections::new();
    table.accept(Role::Listener, 0);
    let before = table.clone();
    table.deliver(&plan, 7, UpgradeEvent::Closed, 1);
    assert_eq!(table.get(0), before.get(0));
    assert_eq!(table.len(), 1);
    assert_eq!(table.get(7), None);
}

#[test]
fn an_empty_table_has_no_connections() {
    let plan = authenticate_and_multiplex();
    let mut table = Connections::new();
    assert_eq!(table.len(), 0);
    assert_eq!(table.get(0), None);
    table.tick(&plan, 100);
    assert_eq!(table.len(), 0);
}
