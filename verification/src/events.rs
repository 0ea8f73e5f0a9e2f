//! The events that reach the node's event loop, and the log entry that each
//! of them is worth.
//!
//! An event carries what the loop reads of it, as text and numbers: peer
//! identifiers in base 58, multiaddresses in their textual form.

use crate::text::{join, joined, texts};
use vstd::prelude::*;
use vstd::string::*;

verus! {

/// Why the rendezvous point declined a registration.
#[derive(Debug, Clone, Copy, PartialEq, Eq, Structural)]
pub enum RejectionReason {
    InvalidNamespace,
    InvalidSignedPeerRecord,
    InvalidTtl,
    InvalidCookie,
    NotAuthorized,
    InternalError,
    Unavailable,
}

/// A peer's registration in a namespace.
#[derive(Debug, Clone, PartialEq, Eq)]
pub struct Registration {
    /// The peer that the record belongs to.
    pub peer: String,
    pub namespace: String,
    /// The addresses of the peer's record, in the record's order.
    pub addresses: Vec<String>,
    /// Seconds for which the registration is valid.
    pub ttl: u64,
}

/// What a [`Registration`] is, as mathematical values.
pub struct RegistrationView {
    pub peer: Seq<char>,
    pub namespace: Seq<char>,
    pub addresses: Seq<Seq<char>>,
    pub ttl: nat,
}

impl View for Registration {
    type V = RegistrationView;

    open spec fn view(&self) -> RegistrationView {
        RegistrationView {
            peer: self.peer@,
            namespace: self.namespace@,
            addresses: texts(self.addresses@),
            ttl: self.ttl as nat,
        }
    }
}

/// An event of the rendezvous protocol.
#[derive(Debug, Clone, PartialEq, Eq)]
pub enum RendezvousEvent {
    /// A discover request of `enquirer` was served.
    DiscoverServed { enquirer: String },
    /// A discover request of `enquirer` was declined.
    DiscoverNotServed { enquirer: String, error: RejectionReason },
    /// `peer` registered.
    PeerRegistered { peer: String, registration: Registration },
    /// A registration of `peer` was declined.
    PeerNotRegistered { peer: String, namespace: String, error: RejectionReason },
    /// `peer` took its registration back.
    PeerUnregistered { peer: String, namespace: String },
    /// A registration ran out of time.
    RegistrationExpired(Registration),
}

/// What a [`RendezvousEvent`] is, as mathematical values.
pub enum RendezvousEventView {
    DiscoverServed { enquirer: Seq<char> },
    DiscoverNotServed { enquirer: Seq<char>, error: RejectionReason },
    PeerRegistered { peer: Seq<char>, registration: RegistrationView },
    PeerNotRegistered { peer: Seq<char>, namespace: Seq<char>, error: RejectionReason },
    PeerUnregistered { peer: Seq<char>, namespace: Seq<char> },
    RegistrationExpired(RegistrationView),
}

impl View for RendezvousEvent {
    type V = RendezvousEventView;

    open spec fn view(&self) -> RendezvousEventView {
        match self {
            RendezvousEvent::DiscoverServed { enquirer } => RendezvousEventView::DiscoverServed {
                enquirer: enquirer@,
            },
            RendezvousEvent::DiscoverNotServed {
                enquirer,
                error,
            } => RendezvousEventView::DiscoverNotServed { enquirer: enquirer@, error: *error },
            RendezvousEvent::PeerRegistered {
                peer,
                registration,
            } => RendezvousEventView::PeerRegistered { peer: peer@, registration: registration@ },
            RendezvousEvent::PeerNotRegistered {
                peer,
                namespace,
                error,
            } => RendezvousEventView::PeerNotRegistered {
                peer: peer@,
                namespace: namespace@,
                error: *error,
            },
            RendezvousEvent::PeerUnregistered {
                peer,
                namespace,
            } => RendezvousEventView::PeerUnregistered { peer: peer@, namespace: namespace@ },
            RendezvousEvent::RegistrationExpired(
                registration,
            ) => RendezvousEventView::RegistrationExpired(registration@),
        }
    }
}

/// An event of the liveness probe. The event loop reads nothing of it.
#[derive(Debug, Clone, Copy, PartialEq, Eq, Structural)]
pub struct PingEvent {}

/// An event of the node's behaviours: of the rendezvous protocol, or of the
/// liveness probe.
#[derive(Debug, Clone, PartialEq, Eq)]
pub enum Event {
    Rendezvous(RendezvousEvent),
    Ping(PingEvent),
}

/// What an [`Event`] is, as mathematical values.
pub enum EventView {
    Rendezvous(RendezvousEventView),
    Ping,
}

impl View for Event {
    type V = EventView;

    open spec fn view(&self) -> EventView {
        match self {
            Event::Rendezvous(event) => EventView::Rendezvous(event@),
            Event::Ping(_) => EventView::Ping,
        }
    }
}

impl From<RendezvousEvent> for Event {
    fn from(event: RendezvousEvent) -> (wrapped: Event) {
        Event::Rendezvous(event)
    }
}

impl vstd::std_specs::convert::FromSpecImpl<RendezvousEvent> for Event {
    open spec fn obeys_from_spec() -> bool {
        true
    }

    open spec fn from_spec(event: RendezvousEvent) -> Event {
        Event::Rendezvous(event)
    }
}

impl From<PingEvent> for Event {
    fn from(event: PingEvent) -> (wrapped: Event) {
        Event::Ping(event)
    }
}

impl vstd::std_specs::convert::FromSpecImpl<PingEvent> for Event {
    open spec fn obeys_from_spec() -> bool {
        true
    }

    open spec fn from_spec(event: PingEvent) -> Event {
        Event::Ping(event)
    }
}

/// An event of the swarm, as the event loop sees it.
#[derive(Debug, Clone, PartialEq, Eq)]
pub enum SwarmEvent {
    /// A behaviour reported an event.
    Behaviour(Event),
    /// A listener reported a new local address.
    NewListenAddr { address: String },
    /// Anything else, of which the loop reads nothing.
    Other,
}

/// What a [`SwarmEvent`] is, as mathematical values.
pub enum SwarmEventView {
    Behaviour(EventView),
    NewListenAddr { address: Seq<char> },
    Other,
}

impl View for SwarmEvent {
    type V = SwarmEventView;

    open spec fn view(&self) -> SwarmEventView {
        match self {
            SwarmEvent::Behaviour(event) => SwarmEventView::Behaviour(event@),
            SwarmEvent::NewListenAddr { address } => SwarmEventView::NewListenAddr {
                address: address@,
            },
            SwarmEvent::Other => SwarmEventView::Other,
        }
    }
}

/// The value of a log field.
#[derive(Debug, Clone, PartialEq, Eq)]
pub enum FieldValue {
    /// A text, logged as it is.
    Text(String),
    /// A number.
    Number(u64),
    /// A list of texts, logged as a list; how a list is written is up to the
    /// logger.
    List(Vec<String>),
}

/// What a [`FieldValue`] is, as mathematical values.
pub enum FieldValueView {
    Text(Seq<char>),
    Number(nat),
    List(Seq<Seq<char>>),
}

impl View for FieldValue {
    type V = FieldValueView;

    open spec fn view(&self) -> FieldValueView {
        match self {
            FieldValue::Text(text) => FieldValueView::Text(text@),
            FieldValue::Number(number) => FieldValueView::Number(*number as nat),
            FieldValue::List(items) => FieldValueView::List(texts(items@)),
        }
    }
}

/// A named field of a log entry.
#[derive(Debug, Clone, PartialEq, Eq)]
pub struct LogField {
    pub name: String,
    pub value: FieldValue,
}

/// What a [`LogField`] is, as mathematical values.
pub struct LogFieldView {
    pub name: Seq<char>,
    pub value: FieldValueView,
}

impl View for LogField {
    type V = LogFieldView;

    open spec fn view(&self) -> LogFieldView {
        LogFieldView { name: self.name@, value: self.value@ }
    }
}

/// A structured log entry: a message and its fields, in order.
#[derive(Debug, Clone, PartialEq, Eq)]
pub struct LogEntry {
    pub message: String,
    pub fields: Vec<LogField>,
}

/// What a [`LogEntry`] is, as mathematical values.
pub struct LogEntryView {
    pub message: Seq<char>,
    pub fields: Seq<LogFieldView>,
}

impl View for LogEntry {
    type V = LogEntryView;

    open spec fn view(&self) -> LogEntryView {
        LogEntryView {
            message: self.message@,
            fields: self.fields@.map_values(|field: LogField| field@),
        }
    }
}

/// The view of an optional log entry.
pub open spec fn optional_entry(entry: Option<LogEntry>) -> Option<LogEntryView> {
    match entry {
        Some(e) => Some(e@),
        None => None,
    }
}

/// A text field.
pub open spec fn text_field(name: Seq<char>, value: Seq<char>) -> LogFieldView {
    LogFieldView { name, value: FieldValueView::Text(value) }
}

/// A number field.
pub open spec fn number_field(name: Seq<char>, value: nat) -> LogFieldView {
    LogFieldView { name, value: FieldValueView::Number(value) }
}

/// A list field.
pub open spec fn list_field(name: Seq<char>, value: Seq<Seq<char>>) -> LogFieldView {
    LogFieldView { name, value: FieldValueView::List(value) }
}

/// The name of a rejection reason, as it is logged.
pub open spec fn reason_name(reason: RejectionReason) -> Seq<char> {
    match reason {
        RejectionReason::InvalidNamespace => "InvalidNamespace"@,
        RejectionReason::InvalidSignedPeerRecord => "InvalidSignedPeerRecord"@,
        RejectionReason::InvalidTtl => "InvalidTtl"@,
        RejectionReason::InvalidCookie => "InvalidCookie"@,
        RejectionReason::NotAuthorized => "NotAuthorized"@,
        RejectionReason::InternalError => "InternalError"@,
        RejectionReason::Unavailable => "Unavailable"@,
    }
}

/// Addresses as one string, with a comma and nothing else between
/// neighbours.
pub open spec fn comma_joined(addresses: Seq<Seq<char>>) -> Seq<char> {
    joined(addresses, ","@)
}

/// The log entry that an event is worth; `None` for an event that is passed
/// over in silence.
///
/// A registration is logged with the peer, the namespace, the addresses as a
/// list and the time to live. A declined registration is logged
/// with the peer, the namespace and the reason. An expired registration is
/// logged with the record's peer, the namespace, the addresses joined by
/// commas, and the time to live. A withdrawn registration is logged with the
/// peer and the namespace, a served discovery with the enquirer, a new
/// listening address with the address. Nothing else is logged.
pub open spec fn entry_for(event: SwarmEventView) -> Option<LogEntryView> {
    match event {
        SwarmEventView::Behaviour(EventView::Rendezvous(rendezvous)) => match rendezvous {
            RendezvousEventView::PeerRegistered { peer, registration } => Some(
                LogEntryView {
                    message: "Peer registered"@,
                    fields: seq![
                        text_field("peer"@, peer),
                        text_field("namespace"@, registration.namespace),
                        list_field("addresses"@, registration.addresses),
                        number_field("ttl"@, registration.ttl),
                    ],
                },
            ),
            RendezvousEventView::PeerNotRegistered { peer, namespace, error } => Some(
                LogEntryView {
                    message: "Peer failed to register"@,
                    fields: seq![
                        text_field("peer"@, peer),
                        text_field("namespace"@, namespace),
                        text_field("error"@, reason_name(error)),
                    ],
                },
            ),
            RendezvousEventView::RegistrationExpired(registration) => Some(
                LogEntryView {
                    message: "Registration expired"@,
                    fields: seq![
                        text_field("peer"@, registration.peer),
                        text_field("namespace"@, registration.namespace),
                        text_field("addresses"@, comma_joined(registration.addresses)),
                        number_field("ttl"@, registration.ttl),
                    ],
                },
            ),
            RendezvousEventView::PeerUnregistered { peer, namespace } => Some(
                LogEntryView {
                    message: "Peer unregistered"@,
                    fields: seq![text_field("peer"@, peer), text_field("namespace"@, namespace)],
                },
            ),
            RendezvousEventView::DiscoverServed { enquirer } => Some(
                LogEntryView {
                    message: "Discovery served"@,
                    fields: seq![text_field("peer"@, enquirer)],
                },
            ),
            RendezvousEventView::DiscoverNotServed { enquirer, error } => None,
        },
        SwarmEventView::Behaviour(EventView::Ping) => None,
        SwarmEventView::NewListenAddr { address } => Some(
            LogEntryView {
                message: "New listening address reported"@,
                fields: seq![text_field("address"@, address)],
            },
        ),
        SwarmEventView::Other => None,
    }
}

/// The entry that announces the node's own peer identifier at startup.
pub open spec fn startup_entry_for(peer_id: Seq<char>) -> LogEntryView {
    LogEntryView {
        message: "Rendezvous server peer id"@,
        fields: seq![text_field("peer_id"@, peer_id)],
    }
}

impl RejectionReason {
    /// The name of the reason, as it is logged.
    pub fn name(&self) -> (text: String)
        ensures
            text@ == reason_name(*self),
    {
        match self {
            RejectionReason::InvalidNamespace => String::from_str("InvalidNamespace"),
            RejectionReason::InvalidSignedPeerRecord => String::from_str("InvalidSignedPeerRecord"),
            RejectionReason::InvalidTtl => String::from_str("InvalidTtl"),
            RejectionReason::InvalidCookie => String::from_str("InvalidCookie"),
            RejectionReason::NotAuthorized => String::from_str("NotAuthorized"),
            RejectionReason::InternalError => String::from_str("InternalError"),
            RejectionReason::Unavailable => String::from_str("Unavailable"),
        }
    }
}

/// A list of multiaddresses, for printing.
pub struct Addresses<'a>(pub &'a Vec<String>);

impl<'a> Addresses<'a> {
    /// The addresses as one string, separated by commas.
    pub fn to_text(&self) -> (text: String)
        ensures
            text@ == comma_joined(texts(self.0@)),
    {
        join(self.0, ",")
    }
}

fn text(name: &str, value: String) -> (field: LogField)
    ensures
        field@ == text_field(name@, value@),
{
    LogField { name: String::from_str(name), value: FieldValue::Text(value) }
}

fn number(name: &str, value: u64) -> (field: LogField)
    ensures
        field@ == number_field(name@, value as nat),
{
    LogField { name: String::from_str(name), value: FieldValue::Number(value) }
}

fn list(name: &str, value: Vec<String>) -> (field: LogField)
    ensures
        field@ == list_field(name@, texts(value@)),
{
    LogField { name: String::from_str(name), value: FieldValue::List(value) }
}

fn entry(message: &str, fields: Vec<LogField>) -> (entry: LogEntry)
    ensures
        entry@.message == message@,
        entry@.fields == fields@.map_values(|field: LogField| field@),
{
    LogEntry { message: String::from_str(message), fields }
}

/// The log entry that an event of the rendezvous protocol is worth.
fn rendezvous_entry(event: &RendezvousEvent) -> (logged: Option<LogEntry>)
    ensures
        optional_entry(logged) == entry_for(
            SwarmEventView::Behaviour(EventView::Rendezvous(event@)),
        ),
{
    match event {
        RendezvousEvent::PeerRegistered { peer, registration } => {
            let mut fields: Vec<LogField> = Vec::new();
            fields.push(text("peer", peer.clone()));
            fields.push(text("namespace", registration.namespace.clone()));
            fields.push(list("addresses", registration.addresses.clone()));
            fields.push(number("ttl", registration.ttl));
            let logged = entry("Peer registered", fields);
            assert(logged@.fields =~= seq![
                text_field("peer"@, peer@),
                text_field("namespace"@, registration@.namespace),
                list_field("addresses"@, registration@.addresses),
                number_field("ttl"@, registration@.ttl),
            ]);
            Some(logged)
        },
        RendezvousEvent::PeerNotRegistered { peer, namespace, error } => {
            let mut fields: Vec<LogField> = Vec::new();
            fields.push(text("peer", peer.clone()));
            fields.push(text("namespace", namespace.clone()));
            fields.push(text("error", error.name()));
            let logged = entry("Peer failed to register", fields);
            assert(logged@.fields =~= seq![
                text_field("peer"@, peer@),
                text_field("namespace"@, namespace@),
                text_field("error"@, reason_name(*error)),
            ]);
            Some(logged)
        },
        RendezvousEvent::RegistrationExpired(registration) => {
            let mut fields: Vec<LogField> = Vec::new();
            fields.push(text("peer", registration.peer.clone()));
            fields.push(text("namespace", registration.namespace.clone()));
            fields.push(text("addresses", Addresses(&registration.addresses).to_text()));
            fields.push(number("ttl", registration.ttl));
            let logged = entry("Registration expired", fields);
            assert(logged@.fields =~= seq![
                text_field("peer"@, registration@.peer),
                text_field("namespace"@, registration@.namespace),
                text_field("addresses"@, comma_joined(registration@.addresses)),
                number_field("ttl"@, registration@.ttl),
            ]);
            Some(logged)
        },
        RendezvousEvent::PeerUnregistered { peer, namespace } => {
            let mut fields: Vec<LogField> = Vec::new();
            fields.push(text("peer", peer.clone()));
            fields.push(text("namespace", namespace.clone()));
            let logged = entry("Peer unregistered", fields);
            assert(logged@.fields =~= seq![
                text_field("peer"@, peer@),
                text_field("namespace"@, namespace@),
            ]);
            Some(logged)
        },
        RendezvousEvent::DiscoverServed { enquirer } => {
            let mut fields: Vec<LogField> = Vec::new();
            fields.push(text("peer", enquirer.clone()));
            let logged = entry("Discovery served", fields);
            assert(logged@.fields =~= seq![text_field("peer"@, enquirer@)]);
            Some(logged)
        },
        RendezvousEvent::DiscoverNotServed { enquirer, error } => None,
    }
}

/// The log entry that an event is worth, or `None` where the event loop
/// passes over the event.
pub fn log_entry(event: &SwarmEvent) -> (logged: Option<LogEntry>)
    ensures
        optional_entry(logged) == entry_for(event@),
{
    match event {
        SwarmEvent::Behaviour(Event::Rendezvous(rendezvous)) => rendezvous_entry(rendezvous),
        SwarmEvent::Behaviour(Event::Ping(_)) => None,
        SwarmEvent::NewListenAddr { address } => {
            let mut fields: Vec<LogField> = Vec::new();
            fields.push(text("address", address.clone()));
            let logged = entry("New listening address reported", fields);
            assert(logged@.fields =~= seq![text_field("address"@, address@)]);
            Some(logged)
        },
        SwarmEvent::Other => None,
    }
}

/// The log entry that announces the node's own peer identifier.
pub fn startup_entry(peer_id: &String) -> (logged: LogEntry)
    ensures
        logged@ == startup_entry_for(peer_id@),
{
    let mut fields: Vec<LogField> = Vec::new();
    fields.push(text("peer_id", peer_id.clone()));
    let logged = entry("Rendezvous server peer id", fields);
    assert(logged@.fields =~= seq![text_field("peer_id"@, peer_id@)]);
    logged
}

/// Six kinds of event are logged and no other: a registration, a declined
/// registration, an expired registration, a withdrawn registration, a served
/// discovery, and a new listening address.
pub proof fn lemma_logged_events(event: SwarmEventView)
    ensures
        entry_for(event) is Some <==> (event is NewListenAddr || (event matches SwarmEventView::Behaviour(
            EventView::Rendezvous(rendezvous),
        ) && !(rendezvous is DiscoverNotServed))),
{
}

/// An expired registration is logged with all four of its fields, under
/// their names and in this order: the peer of the record, the namespace, the
/// addresses as one string with commas between them, and the time to live.
/// A single address is logged as it is, and no address as the empty string.
pub proof fn lemma_expired_registration_entry(registration: RegistrationView)
    ensures
        ({
            let entry = entry_for(
                SwarmEventView::Behaviour(
                    EventView::Rendezvous(RendezvousEventView::RegistrationExpired(registration)),
                ),
            )->Some_0;
            &&& entry.message == "Registration expired"@
            &&& entry.fields.len() == 4
            &&& entry.fields[0] == text_field("peer"@, registration.peer)
            &&& entry.fields[1] == text_field("namespace"@, registration.namespace)
            &&& entry.fields[2] == text_field("addresses"@, comma_joined(registration.addresses))
            &&& entry.fields[3] == number_field("ttl"@, registration.ttl)
            &&& (registration.addresses.len() == 1 ==> comma_joined(registration.addresses)
                == registration.addresses[0])
            &&& (registration.addresses.len() == 0 ==> comma_joined(registration.addresses)
                == Seq::<char>::empty())
        }),
{
}

} // verus!
