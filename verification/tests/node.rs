use rendezvous_server::events::{
    log_entry, startup_entry, Event, PingEvent, Registration, RendezvousEvent, SwarmEvent,
};
use rendezvous_server::identity::{Keypair, SecretKey};
use rendezvous_server::io::{IoAction, IoOutcome};
use rendezvous_server::keyfile::{write_secret_key_to_file, IdentityError};
use rendezvous_server::listen::{BindError, ListenAddress, ListenerKind};
use rendezvous_server::logging::{LogFormat, LogSettings};
use rendezvous_server::node::{Command, Input, Node, Settings, Stride};
use rendezvous_server::server::{create_swarm, StartupError};
use rendezvous_server::tls::{TlsError, TlsMaterial};
use rendezvous_server::transport::WebSocketLayer;
use std::collections::HashMap;

/// A host in memory: a file store, and a swarm that binds every address but
/// those in `taken`.
struct Host {
    files: HashMap<String, Vec<u8>>,
    taken: Vec<ListenAddress>,
    assembles: bool,
    events: Vec<SwarmEvent>,
    done: Vec<Command>,
}

impl Host {
    fn new() -> Host {
        Host {
            files: HashMap::new(),
            taken: Vec::new(),
            assembles: true,
            events: Vec::new(),
            done: Vec::new(),
        }
    }

    fn perform(&mut self, action: IoAction) -> IoOutcome {
        match action {
            IoAction::CreateDirectories { .. } => IoOutcome::Done,
            IoAction::CreateNewFile { path } => {
                if self.files.contains_key(&path) {
                    IoOutcome::AlreadyExists
                } else {
                    self.files.insert(path, Vec::new());
                    IoOutcome::Done
                }
            }
            IoAction::WriteAll { path, bytes } => {
                self.files.insert(path, bytes);
                IoOutcome::Done
            }
            IoAction::ReadFile { path } => match self.files.get(&path) {
                Some(bytes) => IoOutcome::Data(bytes.clone()),
                None => IoOutcome::NotFound,
            },
        }
    }

    /// Carries out the commands of a stride and the strides that follow, until
    /// the node exits, asks for nothing, or polls with no event left.
    fn run(&mut self, first: Stride) -> Node {
        let mut stride = first;
        loop {
            let Stride { node, commands } = stride;
            let mut answer = None;
            for command in commands {
                self.done.push(command.clone());
                match command {
                    Command::Perform(action) => answer = Some(Input::Io(self.perform(action))),
                    Command::Assemble(_) => {
                        answer = Some(if self.assembles {
                            Input::Assembled
                        } else {
                            Input::AssemblyFailed {
                                detail: "no resolver".to_string(),
                            }
                        })
                    }
                    Command::Listen(address) => {
                        answer = Some(if self.taken.contains(&address) {
                            Input::BindFailed {
                                detail: "Address already in use".to_string(),
                            }
                        } else {
                            Input::Bound
                        })
                    }
                    Command::Poll => {
                        if self.events.is_empty() {
                            return node;
                        }
                        answer = Some(Input::Swarm(self.events.remove(0)));
                    }
                    Command::Exit { .. } => return node,
                    _ => {}
                }
            }
            match answer {
                Some(input) => stride = node.advance(input),
                None => return node,
            }
        }
    }
}

fn settings() -> Settings {
    Settings {
        secret_file: "/data/secret".to_string(),
        secret_file_parent: Some("/data".to_string()),
        generate_secret: false,
        listen_tcp: 8888,
        listen_websocket: None,
        tls_private_key: None,
        tls_certificate: None,
        ping: false,
        json: false,
        no_timestamp: false,
    }
}

fn secret() -> Vec<u8> {
    (1u8..33).collect()
}

fn identity() -> Keypair {
    Keypair::from_secret(SecretKey::from_bytes(secret()).unwrap())
}

/// An Ed25519 private key in PKCS#8, DER-encoded.
fn tls_private_key() -> Vec<u8> {
    let mut der = vec![
        0x30, 0x2e, 0x02, 0x01, 0x00, 0x30, 0x05, 0x06, 0x03, 0x2b, 0x65, 0x70, 0x04, 0x22, 0x04,
        0x20,
    ];
    der.extend((1u8..33).collect::<Vec<u8>>());
    der
}

fn host_with_key() -> Host {
    let mut host = Host::new();
    host.files.insert("/data/secret".to_string(), secret());
    host
}

fn tcp(port: u16) -> ListenAddress {
    ListenAddress {
        kind: ListenerKind::Tcp,
        port,
    }
}

fn log_installation(format: LogFormat, ansi: bool) -> Command {
    Command::InstallLog(LogSettings {
        directive: "rendezvous_server=info".to_string(),
        ansi,
        target: false,
        time_format: "%F %T".to_string(),
        format,
    })
}

fn exit(error: StartupError) -> Command {
    Command::Exit { error, code: 1 }
}

#[test]
fn a_node_loads_its_key_and_serves() {
    let mut host = host_with_key();
    let node = host.run(Node::start(settings(), true));
    assert!(node == Node::Serving);
    let expected = vec![
        log_installation(LogFormat::Text, true),
        Command::Perform(IoAction::ReadFile {
            path: "/data/secret".to_string(),
        }),
        Command::Assemble(create_swarm(identity(), false, false, None)),
        Command::Log(startup_entry(identity().peer_id())),
        Command::Listen(tcp(8888)),
        Command::Poll,
    ];
    assert!(host.done == expected);
}

#[test]
fn a_node_generates_its_key_and_serves() {
    let mut host = Host::new();
    let mut asked = settings();
    asked.generate_secret = true;
    let node = host.run(Node::start(asked, false));
    assert!(node == Node::Serving);
    let written = host.files.get("/data/secret").unwrap().clone();
    assert_eq!(written.len(), 32);
    let pair = Keypair::from_secret(SecretKey::from_bytes(written.clone()).unwrap());
    let expected = vec![
        log_installation(LogFormat::Text, false),
        Command::Perform(IoAction::CreateDirectories {
            path: "/data".to_string(),
        }),
        Command::Perform(IoAction::CreateNewFile {
            path: "/data/secret".to_string(),
        }),
        Command::Perform(IoAction::WriteAll {
            path: "/data/secret".to_string(),
            bytes: written,
        }),
        Command::Assemble(create_swarm(pair.clone(), false, false, None)),
        Command::Log(startup_entry(pair.peer_id())),
        Command::Listen(tcp(8888)),
        Command::Poll,
    ];
    assert!(host.done == expected);
}

#[test]
fn a_node_writes_the_key_it_is_given() {
    let mut host = Host::new();
    let mut asked = settings();
    asked.generate_secret = true;
    let first = write_secret_key_to_file(
        SecretKey::from_bytes(secret()).unwrap(),
        asked.secret_file.clone(),
        asked.secret_file_parent.clone(),
    );
    let node = host.run(Node::begin(asked, false, first));
    assert!(node == Node::Serving);
    assert_eq!(host.files.get("/data/secret"), Some(&secret()));
    assert!(host.done[3]
        == Command::Perform(IoAction::WriteAll {
            path: "/data/secret".to_string(),
            bytes: secret(),
        }));
    assert!(host.done[4] == Command::Assemble(create_swarm(identity(), false, false, None)));
}

#[test]
fn a_node_that_generated_its_key_loads_the_same_key_next_time() {
    let mut host = Host::new();
    let mut asked = settings();
    asked.generate_secret = true;
    host.run(Node::start(asked, false));
    let first = host.done.clone();
    host.done.clear();
    host.run(Node::start(settings(), false));
    let peer_id_of = |commands: &Vec<Command>| {
        commands.iter().find_map(|command| match command {
            Command::Assemble(plan) => Some(plan.local_peer_id.clone()),
            _ => None,
        })
    };
    assert!(peer_id_of(&first).is_some());
    assert_eq!(peer_id_of(&first), peer_id_of(&host.done));
}

#[test]
fn a_node_does_not_generate_over_an_existing_key_file() {
    let mut host = host_with_key();
    let mut asked = settings();
    asked.generate_secret = true;
    let node = host.run(Node::start(asked, false));
    assert!(node == Node::Stopped);
    assert!(
        host.done.last()
            == Some(&exit(StartupError::Identity(IdentityError::KeyFileExists {
                path: "/data/secret".to_string()
            })))
    );
    assert_eq!(host.files.get("/data/secret"), Some(&secret()));
}

#[test]
fn a_node_without_key_file_does_not_start() {
    let mut host = Host::new();
    let node = host.run(Node::start(settings(), false));
    assert!(node == Node::Stopped);
    let expected = vec![
        log_installation(LogFormat::Text, false),
        Command::Perform(IoAction::ReadFile {
            path: "/data/secret".to_string(),
        }),
        exit(StartupError::Identity(IdentityError::KeyFileMissing {
            path: "/data/secret".to_string(),
        })),
    ];
    assert!(host.done == expected);
}

#[test]
fn a_node_with_a_broken_key_file_does_not_start() {
    let mut host = Host::new();
    host.files.insert("/data/secret".to_string(), vec![0u8; 31]);
    let node = host.run(Node::start(settings(), false));
    assert!(node == Node::Stopped);
    assert!(
        host.done.last()
            == Some(&exit(StartupError::Identity(
                IdentityError::InvalidKeyBytes { length: 31 }
            )))
    );
}

#[test]
fn one_tls_path_alone_stops_the_node() {
    for (key, certificate) in [
        (Some("key.der".to_string()), None),
        (None, Some("cert.der".to_string())),
    ] {
        for websocket in [None, Some(8080)] {
            let mut host = host_with_key();
            let mut asked = settings();
            asked.tls_private_key = key.clone();
            asked.tls_certificate = certificate.clone();
            asked.listen_websocket = websocket;
            let node = host.run(Node::start(asked, false));
            assert!(node == Node::Stopped);
            assert_eq!(host.done.len(), 3);
            assert!(host.done[2] == exit(StartupError::Tls(TlsError::IncompleteTlsConfig)));
        }
    }
}

#[test]
fn tls_paths_without_websocket_start_the_node_with_a_warning() {
    let mut host = host_with_key();
    let mut asked = settings();
    asked.tls_private_key = Some("key.der".to_string());
    asked.tls_certificate = Some("cert.der".to_string());
    let node = host.run(Node::start(asked, false));
    assert!(node == Node::Serving);
    let expected = vec![
        log_installation(LogFormat::Text, false),
        Command::Perform(IoAction::ReadFile {
            path: "/data/secret".to_string(),
        }),
        Command::Warn(
            "The provided SSL parameters won't have any affect, because you did not activate websockets"
                .to_string(),
        ),
        Command::Assemble(create_swarm(identity(), false, false, None)),
        Command::Log(startup_entry(identity().peer_id())),
        Command::Listen(tcp(8888)),
        Command::Poll,
    ];
    assert!(host.done == expected);
}

#[test]
fn tls_paths_with_websocket_make_a_secure_listener() {
    let mut host = host_with_key();
    host.files.insert("key.der".to_string(), tls_private_key());
    host.files.insert("cert.der".to_string(), vec![3]);
    let mut asked = settings();
    asked.tls_private_key = Some("key.der".to_string());
    asked.tls_certificate = Some("cert.der".to_string());
    asked.listen_websocket = Some(443);
    asked.ping = true;
    let node = host.run(Node::start(asked, false));
    assert!(node == Node::Serving);
    let material = TlsMaterial {
        private_key: tls_private_key(),
        certificate: vec![3],
    };
    let plan = create_swarm(identity(), true, true, Some(material.clone()));
    assert!(plan.transport.websocket == Some(WebSocketLayer::Secure(material)));
    let expected = vec![
        log_installation(LogFormat::Text, false),
        Command::Perform(IoAction::ReadFile {
            path: "/data/secret".to_string(),
        }),
        Command::Perform(IoAction::ReadFile {
            path: "key.der".to_string(),
        }),
        Command::Perform(IoAction::ReadFile {
            path: "cert.der".to_string(),
        }),
        Command::Assemble(plan),
        Command::Log(startup_entry(identity().peer_id())),
        Command::Listen(tcp(8888)),
        Command::Listen(ListenAddress {
            kind: ListenerKind::SecureWebSocket,
            port: 443,
        }),
        Command::Poll,
    ];
    assert!(host.done == expected);
}

#[test]
fn websocket_without_tls_makes_a_plain_listener() {
    let mut host = host_with_key();
    let mut asked = settings();
    asked.listen_websocket = Some(8080);
    let node = host.run(Node::start(asked, false));
    assert!(node == Node::Serving);
    let listens: Vec<&Command> = host
        .done
        .iter()
        .filter(|command| matches!(command, Command::Listen(_)))
        .collect();
    assert!(
        listens
            == vec![
                &Command::Listen(tcp(8888)),
                &Command::Listen(ListenAddress {
                    kind: ListenerKind::WebSocket,
                    port: 8080
                })
            ]
    );
}

#[test]
fn an_unreadable_tls_file_stops_the_node() {
    let mut host = host_with_key();
    host.files.insert("key.der".to_string(), vec![1, 2]);
    let mut asked = settings();
    asked.tls_private_key = Some("key.der".to_string());
    asked.tls_certificate = Some("cert.der".to_string());
    asked.listen_websocket = Some(443);
    let node = host.run(Node::start(asked, false));
    assert!(node == Node::Stopped);
    assert!(
        host.done.last()
            == Some(&exit(StartupError::Tls(TlsError::Io {
                path: "cert.der".to_string(),
                detail: String::new(),
            })))
    );
}

#[test]
fn unusable_tls_material_stops_the_node() {
    let mut host = host_with_key();
    host.files.insert("key.der".to_string(), vec![1, 2]);
    host.files.insert("cert.der".to_string(), vec![3]);
    let mut asked = settings();
    asked.tls_private_key = Some("key.der".to_string());
    asked.tls_certificate = Some("cert.der".to_string());
    asked.listen_websocket = Some(443);
    let node = host.run(Node::start(asked, false));
    assert!(node == Node::Stopped);
    match host.done.last() {
        Some(Command::Exit {
            error: StartupError::Tls(TlsError::InvalidMaterial { .. }),
            code: 1,
        }) => {}
        _ => panic!("the node did not exit over its TLS material"),
    }
    assert!(!host
        .done
        .iter()
        .any(|command| matches!(command, Command::Assemble(_))));
}

#[test]
fn a_tcp_port_in_use_stops_the_node_and_names_the_listener() {
    let mut host = host_with_key();
    host.taken.push(tcp(8888));
    let mut asked = settings();
    asked.listen_websocket = Some(8080);
    let node = host.run(Node::start(asked, false));
    assert!(node == Node::Stopped);
    let error = StartupError::Bind(BindError {
        listener: tcp(8888),
        detail: "Address already in use".to_string(),
    });
    assert_eq!(error.message(), "Failed to initialize listener");
    assert!(host.done.last() == Some(&exit(error)));
    assert!(!host.done.contains(&Command::Poll));
    assert!(!host.done.contains(&Command::Listen(ListenAddress {
        kind: ListenerKind::WebSocket,
        port: 8080
    })));
}

#[test]
fn a_websocket_port_in_use_stops_the_node_and_names_the_listener() {
    let websocket = ListenAddress {
        kind: ListenerKind::WebSocket,
        port: 8080,
    };
    let mut host = host_with_key();
    host.taken.push(websocket);
    let mut asked = settings();
    asked.listen_websocket = Some(8080);
    let node = host.run(Node::start(asked, false));
    assert!(node == Node::Stopped);
    let error = StartupError::Bind(BindError {
        listener: websocket,
        detail: "Address already in use".to_string(),
    });
    assert_eq!(error.message(), "Failed to initialize websocket listener");
    assert!(host.done.last() == Some(&exit(error)));
    assert!(host.done.contains(&Command::Listen(tcp(8888))));
}

#[test]
fn a_swarm_that_cannot_be_assembled_stops_the_node() {
    let mut host = host_with_key();
    host.assembles = false;
    let node = host.run(Node::start(settings(), false));
    assert!(node == Node::Stopped);
    let error = StartupError::Transport {
        detail: "no resolver".to_string(),
    };
    assert_eq!(error.message(), "Failed to create transport");
    assert!(host.done.last() == Some(&exit(error)));
}

#[test]
fn the_log_follows_the_switches() {
    let mut json = settings();
    json.json = true;
    json.no_timestamp = true;
    assert!(Node::start(json, true).commands[0] == log_installation(LogFormat::Json, true));
    let mut bare = settings();
    bare.no_timestamp = true;
    assert!(
        Node::start(bare, false).commands[0]
            == log_installation(LogFormat::TextWithoutTime, false)
    );
}

#[test]
fn a_serving_node_logs_an_expired_registration() {
    let event = SwarmEvent::Behaviour(Event::Rendezvous(RendezvousEvent::RegistrationExpired(
        Registration {
            peer: "12D3KooWOwner".to_string(),
            namespace: "booking".to_string(),
            addresses: vec!["/ip4/1.2.3.4/tcp/9000".to_string()],
            ttl: 60,
        },
    )));
    let stride = Node::Serving.advance(Input::Swarm(event.clone()));
    assert!(stride.node == Node::Serving);
    assert!(stride.commands == vec![Command::Log(log_entry(&event).unwrap()), Command::Poll]);
}

#[test]
fn a_serving_node_passes_over_other_events() {
    for event in [
        SwarmEvent::Other,
        SwarmEvent::Behaviour(Event::Ping(PingEvent {})),
    ] {
        let stride = Node::Serving.advance(Input::Swarm(event));
        assert!(stride.node == Node::Serving);
        assert!(stride.commands == vec![Command::Poll]);
    }
}

#[test]
fn nothing_stops_a_serving_node() {
    let inputs = vec![
        Input::Io(IoOutcome::Failed("disk on fire".to_string())),
        Input::Io(IoOutcome::NotFound),
        Input::Assembled,
        Input::AssemblyFailed {
            detail: "late".to_string(),
        },
        Input::Bound,
        Input::BindFailed {
            detail: "late".to_string(),
        },
        Input::Swarm(SwarmEvent::Other),
    ];
    let mut node = Node::Serving;
    for input in inputs {
        let stride = node.advance(input);
        assert!(stride.commands.last() == Some(&Command::Poll));
        assert!(stride
            .commands
            .iter()
            .all(|command| !matches!(command, Command::Exit { .. })));
        node = stride.node;
        assert!(node == Node::Serving);
    }
}

#[test]
fn a_serving_node_takes_events_in_their_order() {
    let mut host = host_with_key();
    host.events = vec![
        SwarmEvent::NewListenAddr {
            address: "/ip4/127.0.0.1/tcp/8888".to_string(),
        },
        SwarmEvent::Other,
        SwarmEvent::Behaviour(Event::Rendezvous(RendezvousEvent::DiscoverServed {
            enquirer: "12D3KooWAsker".to_string(),
        })),
    ];
    let events = host.events.clone();
    let node = host.run(Node::start(settings(), false));
    assert!(node == Node::Serving);
    let tail: Vec<Command> = host.done[5..].to_vec();
    let expected = vec![
        Command::Poll,
        Command::Log(log_entry(&events[0]).unwrap()),
        Command::Poll,
        Command::Poll,
        Command::Log(log_entry(&events[2]).unwrap()),
        Command::Poll,
    ];
    assert!(tail == expected);
}

#[test]
fn a_stopped_node_asks_for_nothing() {
    for input in [Input::Bound, Input::Swarm(SwarmEvent::Other), Input::Assembled] {
        let stride = Node::Stopped.advance(input);
        assert!(stride.node == Node::Stopped);
        assert!(stride.commands.is_empty());
    }
}

#[test]
fn an_input_that_answers_nothing_is_passed_over() {
    let stride = Node::start(settings(), false);
    let waiting = stride.node.clone();
    let next = stride.node.advance(Input::Bound);
    assert!(next.node == waiting);
    assert!(next.commands.is_empty());

    let binding = Node::Binding {
        listeners: vec![tcp(1)],
        next: 0,
    };
    let next = binding.clone().advance(Input::Io(IoOutcome::Done));
    assert!(next.node == binding);
    assert!(next.commands.is_empty());
}
