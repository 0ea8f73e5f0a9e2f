//! The node as a whole: what it is made of, and what it does about a
//! failure.
//!
//! A failure before the event loop runs is fatal: the process reports it and
//! exits with a status that is not zero. A failure on a connection ends that
//! connection and nothing else.

use crate::behaviour::{behaviour_for, Behaviour};
use crate::identity::{peer_id_text, Keypair};
use crate::keyfile::{IdentityError, IdentityErrorView};
use crate::listen::{bind_error_message, BindError, BindErrorView};
use crate::tls::{optional_material, TlsError, TlsErrorView, TlsMaterial, TlsMaterialView};
use crate::transport::{create_transport, transport_plan, TransportPlan, TransportPlanView};
use crate::upgrade::ConnectionError;
use vstd::prelude::*;
use vstd::string::*;

verus! {

/// The exit status of a node that failed to start.
pub const FAILURE_EXIT_CODE: u8 = 1;

/// What a swarm is made of.
#[derive(Clone, PartialEq, Eq)]
pub struct SwarmPlan {
    /// The node's own peer identifier, in base 58.
    pub local_peer_id: String,
    pub transport: TransportPlan,
    pub behaviour: Behaviour,
}

/// What a [`SwarmPlan`] is, as mathematical values.
pub struct SwarmPlanView {
    pub local_peer_id: Seq<char>,
    pub transport: TransportPlanView,
    pub behaviour: Behaviour,
}

impl View for SwarmPlan {
    type V = SwarmPlanView;

    open spec fn view(&self) -> SwarmPlanView {
        SwarmPlanView {
            local_peer_id: self.local_peer_id@,
            transport: self.transport@,
            behaviour: self.behaviour,
        }
    }
}

/// The swarm of a node whose key pair has the secret bytes `identity`: it
/// goes by the peer identifier of that key pair, over the transport that the
/// flags ask for, with the rendezvous protocol and, where `ping` is set, the
/// liveness probe.
pub open spec fn swarm_plan(
    identity: Seq<u8>,
    ping: bool,
    websocket: bool,
    tls: Option<TlsMaterialView>,
) -> SwarmPlanView {
    SwarmPlanView {
        local_peer_id: peer_id_text(identity),
        transport: transport_plan(identity, websocket, tls),
        behaviour: behaviour_for(ping),
    }
}

/// Plans the swarm of a node with the key pair `identity`.
pub fn create_swarm(identity: Keypair, ping: bool, websocket: bool, tls: Option<TlsMaterial>) -> (plan:
    SwarmPlan)
    ensures
        plan@ == swarm_plan(identity.secret_bytes(), ping, websocket, optional_material(tls)),
{
    let local_peer_id = identity.peer_id().clone();
    let transport = create_transport(identity, websocket, tls);
    SwarmPlan { local_peer_id, transport, behaviour: Behaviour::new(ping) }
}

/// Why a node did not start.
#[derive(Debug, Clone, PartialEq, Eq)]
pub enum StartupError {
    /// The node has no key pair.
    Identity(IdentityError),
    /// The TLS parameters were refused.
    Tls(TlsError),
    /// The transport could not be assembled; `detail` is the host's
    /// description.
    Transport { detail: String },
    /// A listener could not be bound.
    Bind(BindError),
}

/// What a [`StartupError`] is, as mathematical values.
pub enum StartupErrorView {
    Identity(IdentityErrorView),
    Tls(TlsErrorView),
    Transport { detail: Seq<char> },
    Bind(BindErrorView),
}

impl View for StartupError {
    type V = StartupErrorView;

    open spec fn view(&self) -> StartupErrorView {
        match self {
            StartupError::Identity(error) => StartupErrorView::Identity(error@),
            StartupError::Tls(error) => StartupErrorView::Tls(error@),
            StartupError::Transport { detail } => StartupErrorView::Transport { detail: detail@ },
            StartupError::Bind(error) => StartupErrorView::Bind(error@),
        }
    }
}

/// The kinds of failure that keep a node from starting.
#[derive(Debug, Clone, Copy, PartialEq, Eq, Structural)]
pub enum ErrorClass {
    /// What the operator asked for cannot be done as asked.
    Configuration,
    /// A file or a directory could not be read or made.
    Io,
    /// A listener could not be bound.
    ListenerBind,
}

/// The class of a startup error. A key file that is in the way, key bytes
/// that are no key, one TLS path without the other, TLS material that cannot
/// be used and a transport that cannot be assembled are matters of
/// configuration; a file that is missing or cannot be read, written or
/// created is a matter of the file system.
pub open spec fn class_of(error: StartupErrorView) -> ErrorClass {
    match error {
        StartupErrorView::Identity(IdentityErrorView::KeyFileExists { path }) => ErrorClass::Configuration,
        StartupErrorView::Identity(IdentityErrorView::InvalidKeyBytes { length }) => ErrorClass::Configuration,
        StartupErrorView::Identity(_) => ErrorClass::Io,
        StartupErrorView::Tls(TlsErrorView::Io { path, detail }) => ErrorClass::Io,
        StartupErrorView::Tls(_) => ErrorClass::Configuration,
        StartupErrorView::Transport { detail } => ErrorClass::Configuration,
        StartupErrorView::Bind(_) => ErrorClass::ListenerBind,
    }
}

/// What is shown to the operator for a startup error.
pub open spec fn startup_message(error: StartupErrorView) -> Seq<char> {
    match error {
        StartupErrorView::Identity(inner) => crate::keyfile::error_message(inner),
        StartupErrorView::Tls(inner) => crate::tls::error_message(inner),
        StartupErrorView::Transport { detail } => "Failed to create transport"@,
        StartupErrorView::Bind(inner) => bind_error_message(inner.listener.kind),
    }
}

impl StartupError {
    /// The class of the error.
    pub fn class(&self) -> (class: ErrorClass)
        ensures
            class == class_of(self@),
    {
        match self {
            StartupError::Identity(IdentityError::KeyFileExists { .. }) => ErrorClass::Configuration,
            StartupError::Identity(IdentityError::InvalidKeyBytes { .. }) => ErrorClass::Configuration,
            StartupError::Identity(_) => ErrorClass::Io,
            StartupError::Tls(TlsError::Io { .. }) => ErrorClass::Io,
            StartupError::Tls(_) => ErrorClass::Configuration,
            StartupError::Transport { .. } => ErrorClass::Configuration,
            StartupError::Bind(_) => ErrorClass::ListenerBind,
        }
    }

    /// The message for the operator.
    pub fn message(&self) -> (text: String)
        ensures
            text@ == startup_message(self@),
    {
        match self {
            StartupError::Identity(inner) => inner.message(),
            StartupError::Tls(inner) => inner.message(),
            StartupError::Transport { .. } => String::from_str("Failed to create transport"),
            StartupError::Bind(inner) => inner.message(),
        }
    }
}

/// Something that went wrong in a node.
#[derive(Debug, Clone, PartialEq, Eq)]
pub enum Failure {
    /// The node could not start.
    Startup(StartupError),
    /// A connection could not be upgraded.
    Connection(ConnectionError),
}

/// What a [`Failure`] is, as mathematical values.
pub enum FailureView {
    Startup(StartupErrorView),
    Connection(ConnectionError),
}

impl View for Failure {
    type V = FailureView;

    open spec fn view(&self) -> FailureView {
        match self {
            Failure::Startup(error) => FailureView::Startup(error@),
            Failure::Connection(error) => FailureView::Connection(*error),
        }
    }
}

/// What a node does about a failure.
#[derive(Debug, Clone, Copy, PartialEq, Eq, Structural)]
pub enum Reaction {
    /// Report the failure and leave the process with this status.
    Exit { code: u8 },
    /// Give up the connection; the event loop and every other connection go
    /// on.
    DropConnection,
}

/// What a node does about a failure: a startup error ends the process with a
/// status that is not zero, an error on a connection ends the connection.
pub open spec fn reaction_to(failure: FailureView) -> Reaction {
    match failure {
        FailureView::Startup(_) => Reaction::Exit { code: 1 },
        FailureView::Connection(_) => Reaction::DropConnection,
    }
}

/// Decides what the node does about a failure.
pub fn react(failure: &Failure) -> (reaction: Reaction)
    ensures
        reaction == reaction_to(failure@),
{
    match failure {
        Failure::Startup(_) => Reaction::Exit { code: FAILURE_EXIT_CODE },
        Failure::Connection(_) => Reaction::DropConnection,
    }
}

/// No failure of a connection ends the process, and no failure to start ends
/// with status zero.
pub proof fn lemma_only_startup_is_fatal(failure: FailureView)
    ensures
        failure is Connection <==> reaction_to(failure) == Reaction::DropConnection,
        failure is Startup <==> (reaction_to(failure) matches Reaction::Exit { code } && code != 0),
{
}

} // verus!
