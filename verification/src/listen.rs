//! The addresses that the node listens on: TCP always, and a WebSocket on a
//! second port where one is asked for.

use crate::text::{
    decimal, decimal_string, digit_char, digit_value, lemma_decimal_injective,
    lemma_decimal_round_trip,
};
use vstd::prelude::*;
use vstd::string::*;

verus! {

/// What a listener speaks.
#[derive(Debug, Clone, Copy, PartialEq, Eq, Structural)]
pub enum ListenerKind {
    /// Plain TCP.
    Tcp,
    /// WebSocket on TCP.
    WebSocket,
    /// WebSocket on TLS on TCP.
    SecureWebSocket,
}

/// A listener on every IPv4 interface of the host.
#[derive(Debug, Clone, Copy, PartialEq, Eq, Structural)]
pub struct ListenAddress {
    pub kind: ListenerKind,
    pub port: u16,
}

/// What follows the port in the address of a listener.
pub open spec fn kind_suffix(kind: ListenerKind) -> Seq<char> {
    match kind {
        ListenerKind::Tcp => Seq::empty(),
        ListenerKind::WebSocket => "/ws"@,
        ListenerKind::SecureWebSocket => "/wss"@,
    }
}

/// The multiaddress of a listener, as text: `/ip4/0.0.0.0/tcp/`, the port in
/// decimal, and `/ws` or `/wss` for a WebSocket.
pub open spec fn multiaddr_text(address: ListenAddress) -> Seq<char> {
    "/ip4/0.0.0.0/tcp/"@ + decimal(address.port as nat) + kind_suffix(address.kind)
}

/// The listeners of a node: the TCP listener first, then the WebSocket
/// listener where a port is given for it, secure exactly where the node has
/// TLS material.
pub open spec fn listeners(listen_tcp: u16, listen_websocket: Option<u16>, secure: bool) -> Seq<
    ListenAddress,
> {
    let tcp = ListenAddress { kind: ListenerKind::Tcp, port: listen_tcp };
    match listen_websocket {
        Some(port) => seq![
            tcp,
            ListenAddress {
                kind: if secure {
                    ListenerKind::SecureWebSocket
                } else {
                    ListenerKind::WebSocket
                },
                port,
            },
        ],
        None => seq![tcp],
    }
}

impl ListenAddress {
    /// The multiaddress of the listener, as text.
    pub fn to_multiaddr_text(&self) -> (text: String)
        ensures
            text@ == multiaddr_text(*self),
    {
        let mut text = String::from_str("/ip4/0.0.0.0/tcp/");
        let port = decimal_string(self.port as u64);
        text.append(port.as_str());
        match self.kind {
            ListenerKind::Tcp => {
                assert(text@ =~= multiaddr_text(*self));
            },
            ListenerKind::WebSocket => {
                text.append("/ws");
            },
            ListenerKind::SecureWebSocket => {
                text.append("/wss");
            },
        }
        text
    }
}

/// The addresses to listen on, in the order in which they are bound.
pub fn listen_addresses(listen_tcp: u16, listen_websocket: Option<u16>, secure: bool) -> (addresses:
    Vec<ListenAddress>)
    ensures
        addresses@ == listeners(listen_tcp, listen_websocket, secure),
{
    let mut addresses: Vec<ListenAddress> = Vec::new();
    addresses.push(ListenAddress { kind: ListenerKind::Tcp, port: listen_tcp });
    match listen_websocket {
        Some(port) => {
            let kind = if secure {
                ListenerKind::SecureWebSocket
            } else {
                ListenerKind::WebSocket
            };
            addresses.push(ListenAddress { kind, port });
        },
        None => {},
    }
    assert(addresses@ =~= listeners(listen_tcp, listen_websocket, secure));
    addresses
}

/// A listener that could not be bound. The node does not start without each
/// of its listeners.
#[derive(Debug, Clone, PartialEq, Eq)]
pub struct BindError {
    /// The listener that failed.
    pub listener: ListenAddress,
    /// The host's description of the failure.
    pub detail: String,
}

/// What a [`BindError`] is, as mathematical values.
pub struct BindErrorView {
    pub listener: ListenAddress,
    pub detail: Seq<char>,
}

impl View for BindError {
    type V = BindErrorView;

    open spec fn view(&self) -> BindErrorView {
        BindErrorView { listener: self.listener, detail: self.detail@ }
    }
}

/// What is shown to the operator when a listener of this kind cannot be
/// bound.
pub open spec fn bind_error_message(kind: ListenerKind) -> Seq<char> {
    match kind {
        ListenerKind::Tcp => "Failed to initialize listener"@,
        _ => "Failed to initialize websocket listener"@,
    }
}

impl BindError {
    /// The message for the operator; it tells the TCP listener from the
    /// WebSocket listener.
    pub fn message(&self) -> (text: String)
        ensures
            text@ == bind_error_message(self.listener.kind),
    {
        match self.listener.kind {
            ListenerKind::Tcp => String::from_str("Failed to initialize listener"),
            _ => String::from_str("Failed to initialize websocket listener"),
        }
    }
}

/// Every node has a TCP listener, and it comes first; a WebSocket listener
/// exists exactly where a port is given for it, and it is secure exactly
/// where the node has TLS material.
pub proof fn lemma_listeners(listen_tcp: u16, listen_websocket: Option<u16>, secure: bool)
    ensures
        ({
            let all = listeners(listen_tcp, listen_websocket, secure);
            &&& all.len() == if listen_websocket is Some {
                2nat
            } else {
                1nat
            }
            &&& all[0] == ListenAddress { kind: ListenerKind::Tcp, port: listen_tcp }
            &&& listen_websocket matches Some(port) ==> all[1].port == port && (all[1].kind
                == ListenerKind::SecureWebSocket <==> secure) && (all[1].kind
                == ListenerKind::WebSocket <==> !secure)
        }),
{
}

/// The last character of a listener's address tells a TCP listener, whose
/// address ends in a digit, from a WebSocket listener, whose address ends in
/// `s`; the character before it tells `/ws` from `/wss`.
proof fn lemma_address_ends(address: ListenAddress)
    ensures
        multiaddr_text(address).len() >= 18,
        address.kind == ListenerKind::Tcp ==> multiaddr_text(address).last() != 's',
        address.kind != ListenerKind::Tcp ==> multiaddr_text(address).last() == 's',
        address.kind == ListenerKind::WebSocket ==> multiaddr_text(address)[multiaddr_text(
            address,
        ).len() - 2] == 'w',
        address.kind == ListenerKind::SecureWebSocket ==> multiaddr_text(address)[multiaddr_text(
            address,
        ).len() - 2] == 's',
        multiaddr_text(address).len() == 17 + decimal(address.port as nat).len() + kind_suffix(
            address.kind,
        ).len(),
{
    reveal_strlit("/ip4/0.0.0.0/tcp/");
    reveal_strlit("/ws");
    reveal_strlit("/wss");
    lemma_decimal_round_trip(address.port as nat);
    let digits = decimal(address.port as nat);
    let text = multiaddr_text(address);
    match address.kind {
        ListenerKind::Tcp => {
            assert(text.last() == digits.last());
            assert(digit_char(digit_value(digits[digits.len() - 1])) == digits[digits.len() - 1]);
        },
        ListenerKind::WebSocket => {
            assert(text.last() == "/ws"@[2]);
            assert(text[text.len() - 2] == "/ws"@[1]);
        },
        ListenerKind::SecureWebSocket => {
            assert(text.last() == "/wss"@[3]);
            assert(text[text.len() - 2] == "/wss"@[2]);
        },
    }
}

/// No two listeners share an address: listeners with the same multiaddress
/// are of the same kind and on the same port.
pub proof fn lemma_addresses_are_distinct(a: ListenAddress, b: ListenAddress)
    requires
        multiaddr_text(a) == multiaddr_text(b),
    ensures
        a == b,
{
    lemma_address_ends(a);
    lemma_address_ends(b);
    assert(a.kind == b.kind);
    let prefix = "/ip4/0.0.0.0/tcp/"@;
    let digits_a = decimal(a.port as nat);
    let digits_b = decimal(b.port as nat);
    assert(digits_a.len() == digits_b.len());
    reveal_strlit("/ip4/0.0.0.0/tcp/");
    assert forall|i: int| 0 <= i < digits_a.len() implies digits_a[i] == digits_b[i] by {
        assert(multiaddr_text(a)[17 + i] == digits_a[i]);
        assert(multiaddr_text(b)[17 + i] == digits_b[i]);
    }
    assert(digits_a =~= digits_b);
    lemma_decimal_injective(a.port as nat, b.port as nat);
}

} // verus!
