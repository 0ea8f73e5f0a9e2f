//! The plan of the node's transport: which raw layers accept a connection,
//! and the upgrade that every connection goes through before it carries
//! streams.
//!
//! A raw connection arrives over TCP or, where enabled, over a WebSocket on
//! TCP. It then agrees on the upgrade protocol's version, runs the Noise XX
//! handshake against the node's key pair, and settles on a stream multiplexer;
//! all of that within a fixed number of seconds.

use crate::identity::Keypair;
use crate::tls::{optional_material, TlsMaterial, TlsMaterialView};
use vstd::prelude::*;

verus! {

/// Seconds that a connection has for its whole upgrade.
pub const UPGRADE_TIMEOUT_SECS: u64 = 20;

/// A stream multiplexer that the node can run on a connection.
#[derive(Debug, Clone, Copy, PartialEq, Eq, Structural)]
pub enum Multiplexer {
    Yamux,
    Mplex,
}

/// The version of the protocol by which the upgrade steps are negotiated.
#[derive(Debug, Clone, Copy, PartialEq, Eq, Structural)]
pub enum UpgradeVersion {
    V1,
    V1Lazy,
}

/// The handshake by which the two ends of a connection authenticate each
/// other.
#[derive(Debug, Clone, Copy, PartialEq, Eq, Structural)]
pub enum Handshake {
    /// Noise with the XX pattern over X25519: both ends send their static
    /// key, neither knows the other's beforehand.
    NoiseXX,
}

/// The upgrade of a raw connection.
#[derive(Debug, Clone, PartialEq, Eq)]
pub struct UpgradePlan {
    pub version: UpgradeVersion,
    pub handshake: Handshake,
    /// The multiplexers on offer, the preferred one first.
    pub multiplexers: Vec<Multiplexer>,
    /// Seconds from the raw connection to the end of the upgrade.
    pub timeout_secs: u64,
}

/// What an [`UpgradePlan`] is, as mathematical values.
pub struct UpgradePlanView {
    pub version: UpgradeVersion,
    pub handshake: Handshake,
    pub multiplexers: Seq<Multiplexer>,
    pub timeout_secs: nat,
}

impl View for UpgradePlan {
    type V = UpgradePlanView;

    open spec fn view(&self) -> UpgradePlanView {
        UpgradePlanView {
            version: self.version,
            handshake: self.handshake,
            multiplexers: self.multiplexers@,
            timeout_secs: self.timeout_secs as nat,
        }
    }
}

/// The upgrade that every node uses: version 1, Noise XX, Yamux before
/// Mplex, twenty seconds.
pub open spec fn standard_upgrade() -> UpgradePlanView {
    UpgradePlanView {
        version: UpgradeVersion::V1,
        handshake: Handshake::NoiseXX,
        multiplexers: seq![Multiplexer::Yamux, Multiplexer::Mplex],
        timeout_secs: 20,
    }
}

/// The upgrade that authenticates a raw connection and puts a multiplexer on
/// it.
pub fn authenticate_and_multiplex() -> (plan: UpgradePlan)
    ensures
        plan@ == standard_upgrade(),
{
    let mut multiplexers: Vec<Multiplexer> = Vec::new();
    multiplexers.push(Multiplexer::Yamux);
    multiplexers.push(Multiplexer::Mplex);
    assert(multiplexers@ =~= seq![Multiplexer::Yamux, Multiplexer::Mplex]);
    UpgradePlan {
        version: UpgradeVersion::V1,
        handshake: Handshake::NoiseXX,
        multiplexers,
        timeout_secs: UPGRADE_TIMEOUT_SECS,
    }
}

/// The WebSocket layer of a transport.
#[derive(Clone, PartialEq, Eq)]
pub enum WebSocketLayer {
    /// WebSocket frames directly on TCP.
    Plain,
    /// WebSocket frames on TLS, which the node terminates with this material.
    Secure(TlsMaterial),
}

/// What a [`WebSocketLayer`] is, as mathematical values.
pub enum WebSocketLayerView {
    Plain,
    Secure(TlsMaterialView),
}

impl View for WebSocketLayer {
    type V = WebSocketLayerView;

    open spec fn view(&self) -> WebSocketLayerView {
        match self {
            WebSocketLayer::Plain => WebSocketLayerView::Plain,
            WebSocketLayer::Secure(material) => WebSocketLayerView::Secure(material@),
        }
    }
}

/// The plan of a transport.
#[derive(Clone, PartialEq, Eq)]
pub struct TransportPlan {
    /// The key pair that the handshake is bound to.
    pub identity: Keypair,
    /// Whether TCP sockets send small packets at once.
    pub nodelay: bool,
    /// Whether host names in addresses are resolved.
    pub resolve_names: bool,
    /// The WebSocket layer that is offered beside plain TCP, if any.
    pub websocket: Option<WebSocketLayer>,
    /// The upgrade of every connection, whichever layer it arrived on.
    pub upgrade: UpgradePlan,
}

/// What a [`TransportPlan`] is, as mathematical values. The key pair is known
/// by its secret bytes.
pub struct TransportPlanView {
    pub identity: Seq<u8>,
    pub nodelay: bool,
    pub resolve_names: bool,
    pub websocket: Option<WebSocketLayerView>,
    pub upgrade: UpgradePlanView,
}

impl View for TransportPlan {
    type V = TransportPlanView;

    open spec fn view(&self) -> TransportPlanView {
        TransportPlanView {
            identity: self.identity.secret_bytes(),
            nodelay: self.nodelay,
            resolve_names: self.resolve_names,
            websocket: match self.websocket {
                Some(layer) => Some(layer@),
                None => None,
            },
            upgrade: self.upgrade@,
        }
    }
}

/// The WebSocket layer that the flags ask for: none without WebSocket, a
/// secure one where there is TLS material, a plain one where there is none.
/// TLS material without WebSocket goes unused.
pub open spec fn websocket_layer(websocket: bool, tls: Option<TlsMaterialView>) -> Option<
    WebSocketLayerView,
> {
    if websocket {
        match tls {
            Some(material) => Some(WebSocketLayerView::Secure(material)),
            None => Some(WebSocketLayerView::Plain),
        }
    } else {
        None
    }
}

/// The transport of a node with the key pair `identity`: TCP without delay
/// and with name resolution, the WebSocket layer that the flags ask for, and
/// the standard upgrade.
pub open spec fn transport_plan(
    identity: Seq<u8>,
    websocket: bool,
    tls: Option<TlsMaterialView>,
) -> TransportPlanView {
    TransportPlanView {
        identity,
        nodelay: true,
        resolve_names: true,
        websocket: websocket_layer(websocket, tls),
        upgrade: standard_upgrade(),
    }
}

/// Plans the transport of a node.
pub fn create_transport(identity: Keypair, websocket: bool, tls: Option<TlsMaterial>) -> (plan:
    TransportPlan)
    ensures
        plan@ == transport_plan(identity.secret_bytes(), websocket, optional_material(tls)),
{
    let layer = if websocket {
        match tls {
            Some(material) => Some(WebSocketLayer::Secure(material)),
            None => Some(WebSocketLayer::Plain),
        }
    } else {
        None
    };
    TransportPlan {
        identity,
        nodelay: true,
        resolve_names: true,
        websocket: layer,
        upgrade: authenticate_and_multiplex(),
    }
}

/// The multiplexer that negotiation settles on when the dialling end offers
/// `offered`, in its order of preference, and the listening end supports
/// `supported`: the first offer that is supported. There is none where the
/// two have nothing in common.
pub open spec fn negotiated(offered: Seq<Multiplexer>, supported: Seq<Multiplexer>) -> Option<
    Multiplexer,
>
    decreases offered.len(),
{
    if offered.len() == 0 {
        None
    } else if supported.contains(offered[0]) {
        Some(offered[0])
    } else {
        negotiated(offered.drop_first(), supported)
    }
}

fn supports(supported: &Vec<Multiplexer>, multiplexer: Multiplexer) -> (found: bool)
    ensures
        found == supported@.contains(multiplexer),
{
    let mut i: usize = 0;
    while i < supported.len()
        invariant
            i <= supported.len(),
            forall|j: int| 0 <= j < i ==> supported@[j] != multiplexer,
        decreases supported.len() - i,
    {
        if supported[i] == multiplexer {
            return true;
        }
        i = i + 1;
    }
    false
}

/// Picks the multiplexer for a connection on which the dialling end offers
/// `offered` and the listening end supports `supported`.
pub fn select_multiplexer(offered: &Vec<Multiplexer>, supported: &Vec<Multiplexer>) -> (chosen:
    Option<Multiplexer>)
    ensures
        chosen == negotiated(offered@, supported@),
{
    let mut i: usize = 0;
    assert(offered@.skip(0) =~= offered@);
    while i < offered.len()
        invariant
            i <= offered.len(),
            negotiated(offered@, supported@) == negotiated(offered@.skip(i as int), supported@),
        decreases offered.len() - i,
    {
        let ghost rest = offered@.skip(i as int);
        assert(rest[0] == offered@[i as int]);
        assert(rest.drop_first() =~= offered@.skip(i as int + 1));
        if supports(supported, offered[i]) {
            return Some(offered[i]);
        }
        i = i + 1;
    }
    assert(offered@.skip(i as int).len() == 0);
    None
}

/// What negotiation settles on is shared: it is offered by the one end and
/// supported by the other, and no earlier offer is supported. It fails only
/// where nothing that is offered is supported.
pub proof fn lemma_negotiated_is_first_shared(
    offered: Seq<Multiplexer>,
    supported: Seq<Multiplexer>,
)
    ensures
        negotiated(offered, supported) matches Some(m) ==> supported.contains(m) && exists|i: int|
            0 <= i < offered.len() && offered[i] == m && forall|j: int|
                0 <= j < i ==> !supported.contains(#[trigger] offered[j]),
        negotiated(offered, supported) is None ==> forall|i: int|
            0 <= i < offered.len() ==> !supported.contains(#[trigger] offered[i]),
    decreases offered.len(),
{
    if offered.len() == 0 {
    } else if supported.contains(offered[0]) {
        assert(forall|j: int| 0 <= j < 0 ==> !supported.contains(#[trigger] offered[j]));
    } else {
        let rest = offered.drop_first();
        lemma_negotiated_is_first_shared(rest, supported);
        assert(forall|k: int| 0 <= k < rest.len() ==> rest[k] == offered[k + 1]);
        match negotiated(rest, supported) {
            Some(m) => {
                let i = choose|i: int|
                    0 <= i < rest.len() && rest[i] == m && forall|j: int|
                        0 <= j < i ==> !supported.contains(#[trigger] rest[j]);
                assert forall|j: int| 0 <= j < i + 1 implies !supported.contains(
                    #[trigger] offered[j],
                ) by {
                    if j > 0 {
                        assert(rest[j - 1] == offered[j]);
                    }
                }
                assert(offered[i + 1] == m);
            },
            None => {
                assert forall|i: int| 0 <= i < offered.len() implies !supported.contains(
                    #[trigger] offered[i],
                ) by {
                    if i > 0 {
                        assert(rest[i - 1] == offered[i]);
                    }
                }
            },
        }
    }
}

/// Two ends with the same preferences agree whichever of them dials: where
/// both hold the same list and it is not empty, negotiation settles on its
/// first entry in either direction.
pub proof fn lemma_same_preferences_converge(preferences: Seq<Multiplexer>)
    requires
        preferences.len() > 0,
    ensures
        negotiated(preferences, preferences) == Some(preferences[0]),
{
    assert(preferences.contains(preferences[0]));
}

/// Any two nodes planned by this library can upgrade a connection between
/// them: whatever their key pairs and flags, they hold the same version, the
/// same handshake and the same time limit, and negotiation settles on the
/// same multiplexer, Yamux, whichever of the two dials.
pub proof fn lemma_planned_nodes_converge(
    identity_a: Seq<u8>,
    websocket_a: bool,
    tls_a: Option<TlsMaterialView>,
    identity_b: Seq<u8>,
    websocket_b: bool,
    tls_b: Option<TlsMaterialView>,
)
    ensures
        ({
            let a = transport_plan(identity_a, websocket_a, tls_a);
            let b = transport_plan(identity_b, websocket_b, tls_b);
            &&& a.upgrade.version == b.upgrade.version
            &&& a.upgrade.handshake == b.upgrade.handshake
            &&& a.upgrade.timeout_secs == b.upgrade.timeout_secs == 20
            &&& negotiated(a.upgrade.multiplexers, b.upgrade.multiplexers) == Some(
                Multiplexer::Yamux,
            )
            &&& negotiated(b.upgrade.multiplexers, a.upgrade.multiplexers) == Some(
                Multiplexer::Yamux,
            )
            &&& a.identity == identity_a
            &&& b.identity == identity_b
        }),
{
    let offers = seq![Multiplexer::Yamux, Multiplexer::Mplex];
    assert(offers[0] == Multiplexer::Yamux);
    lemma_same_preferences_converge(offers);
}

/// The flags decide the WebSocket layer and nothing else: TLS material is
/// used exactly where WebSocket is enabled, and the rest of the plan is the
/// same for every node.
pub proof fn lemma_websocket_layer_follows_flags(
    identity: Seq<u8>,
    websocket: bool,
    tls: Option<TlsMaterialView>,
)
    ensures
        ({
            let plan = transport_plan(identity, websocket, tls);
            &&& plan.websocket is Some <==> websocket
            &&& (plan.websocket matches Some(WebSocketLayerView::Secure(m)) ==> tls == Some(m))
            &&& (websocket && tls is Some ==> plan.websocket == Some(
                WebSocketLayerView::Secure(tls->Some_0),
            ))
            &&& plan.nodelay
            &&& plan.resolve_names
            &&& plan.upgrade == standard_upgrade()
        }),
{
}

} // verus!
