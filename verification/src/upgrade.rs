//! The life of one connection while it is upgraded, and the table of all
//! connections that are being upgraded at a time.
//!
//! The node's transport is assembled by libp2p from a
//! [`TransportPlan`](crate::transport::TransportPlan) and runs there. This
//! file states what the plan stands for, as a state machine over the events
//! of one connection: the order of the steps, the time limit over all of
//! them, and the fact that whatever happens to one connection leaves every
//! other connection as it was.

use crate::transport::{
    negotiated, select_multiplexer, standard_upgrade, Multiplexer, UpgradePlan, UpgradePlanView,
};
use vstd::prelude::*;

verus! {

/// Why a connection was given up during its upgrade.
#[derive(Debug, Clone, Copy, PartialEq, Eq, Structural)]
pub enum ConnectionError {
    /// The two ends did not agree on the upgrade protocol, or a step came out
    /// of order.
    NegotiationFailed,
    /// The handshake failed: a wrong identity, a failure of the cryptography,
    /// a message that made no sense.
    HandshakeFailed,
    /// The two ends have no multiplexer in common.
    UnsupportedMultiplexer,
    /// The upgrade took longer than it may.
    UpgradeTimeout,
    /// The socket was closed underneath.
    Disconnected,
}

/// Which end of a connection the node is.
#[derive(Debug, Clone, Copy, PartialEq, Eq, Structural)]
pub enum Role {
    Dialer,
    Listener,
}

/// What happened on a connection that is being upgraded.
#[derive(Debug, Clone, PartialEq, Eq)]
pub enum UpgradeEvent {
    /// The two ends agreed on the version of the upgrade protocol.
    VersionAgreed,
    /// The two ends did not agree on a version.
    VersionRefused,
    /// The handshake authenticated the remote end as `peer`.
    HandshakeCompleted { peer: String },
    /// The handshake failed.
    HandshakeFailed,
    /// The remote end named the multiplexers that it can run, in its order
    /// of preference.
    MultiplexersNamed { remote: Vec<Multiplexer> },
    /// The socket was closed.
    Closed,
}

/// What an [`UpgradeEvent`] is, as mathematical values.
pub enum UpgradeEventView {
    VersionAgreed,
    VersionRefused,
    HandshakeCompleted { peer: Seq<char> },
    HandshakeFailed,
    MultiplexersNamed { remote: Seq<Multiplexer> },
    Closed,
}

impl View for UpgradeEvent {
    type V = UpgradeEventView;

    open spec fn view(&self) -> UpgradeEventView {
        match self {
            UpgradeEvent::VersionAgreed => UpgradeEventView::VersionAgreed,
            UpgradeEvent::VersionRefused => UpgradeEventView::VersionRefused,
            UpgradeEvent::HandshakeCompleted { peer } => UpgradeEventView::HandshakeCompleted {
                peer: peer@,
            },
            UpgradeEvent::HandshakeFailed => UpgradeEventView::HandshakeFailed,
            UpgradeEvent::MultiplexersNamed { remote } => UpgradeEventView::MultiplexersNamed {
                remote: remote@,
            },
            UpgradeEvent::Closed => UpgradeEventView::Closed,
        }
    }
}

/// A connection, from the raw socket to the negotiated connection or to its
/// end.
#[derive(Debug, Clone, PartialEq, Eq)]
pub enum Connection {
    /// The raw socket stands since `established_at`; nothing is agreed yet.
    Raw { role: Role, established_at: u64 },
    /// The version of the upgrade protocol is agreed.
    VersionAgreed { role: Role, established_at: u64 },
    /// The remote end is authenticated as `peer`; the channel is encrypted.
    Authenticated { role: Role, established_at: u64, peer: String },
    /// The upgrade is complete: streams to `peer` run over `multiplexer`.
    Negotiated { peer: String, multiplexer: Multiplexer },
    /// The connection was given up.
    Aborted(ConnectionError),
}

/// What a [`Connection`] is, as mathematical values.
pub enum ConnectionView {
    Raw { role: Role, established_at: nat },
    VersionAgreed { role: Role, established_at: nat },
    Authenticated { role: Role, established_at: nat, peer: Seq<char> },
    Negotiated { peer: Seq<char>, multiplexer: Multiplexer },
    Aborted(ConnectionError),
}

impl View for Connection {
    type V = ConnectionView;

    open spec fn view(&self) -> ConnectionView {
        match self {
            Connection::Raw { role, established_at } => ConnectionView::Raw {
                role: *role,
                established_at: *established_at as nat,
            },
            Connection::VersionAgreed { role, established_at } => ConnectionView::VersionAgreed {
                role: *role,
                established_at: *established_at as nat,
            },
            Connection::Authenticated {
                role,
                established_at,
                peer,
            } => ConnectionView::Authenticated {
                role: *role,
                established_at: *established_at as nat,
                peer: peer@,
            },
            Connection::Negotiated { peer, multiplexer } => ConnectionView::Negotiated {
                peer: peer@,
                multiplexer: *multiplexer,
            },
            Connection::Aborted(error) => ConnectionView::Aborted(*error),
        }
    }
}

/// Whether a connection is still being upgraded.
pub open spec fn upgrading(connection: ConnectionView) -> bool {
    !(connection is Negotiated) && !(connection is Aborted)
}

/// The second at which the raw socket of a connection under upgrade was
/// established (0 for one that is not under upgrade).
pub open spec fn established_at(connection: ConnectionView) -> nat {
    match connection {
        ConnectionView::Raw { role, established_at } => established_at,
        ConnectionView::VersionAgreed { role, established_at } => established_at,
        ConnectionView::Authenticated { role, established_at, peer } => established_at,
        _ => 0,
    }
}

/// Whether a connection has used up its time at second `now`: it is still
/// being upgraded, and the plan's limit has passed since the raw socket was
/// established.
pub open spec fn overdue(plan: UpgradePlanView, connection: ConnectionView, now: nat) -> bool {
    upgrading(connection) && now >= established_at(connection) + plan.timeout_secs
}

/// The multiplexer for a connection on which the node, in `role`, offers
/// `local` and the remote end names `remote`: the dialling end's preference
/// decides.
pub open spec fn agreed_multiplexer(
    role: Role,
    local: Seq<Multiplexer>,
    remote: Seq<Multiplexer>,
) -> Option<Multiplexer> {
    match role {
        Role::Dialer => negotiated(local, remote),
        Role::Listener => negotiated(remote, local),
    }
}

/// The connection after `event` at second `now`.
///
/// A finished connection, negotiated or aborted, stays as it is. A
/// connection that is overdue is aborted with `UpgradeTimeout`, whatever the
/// event. Otherwise the steps come in their order: the version, then the
/// handshake, then the multiplexer; a failure at a step aborts with the
/// error of that step, a closed socket with `Disconnected`, and a step out
/// of order with `NegotiationFailed`.
pub open spec fn after_event(
    plan: UpgradePlanView,
    connection: ConnectionView,
    event: UpgradeEventView,
    now: nat,
) -> ConnectionView {
    if !upgrading(connection) {
        connection
    } else if overdue(plan, connection, now) {
        ConnectionView::Aborted(ConnectionError::UpgradeTimeout)
    } else {
        match event {
            UpgradeEventView::Closed => ConnectionView::Aborted(ConnectionError::Disconnected),
            UpgradeEventView::HandshakeFailed => ConnectionView::Aborted(
                ConnectionError::HandshakeFailed,
            ),
            UpgradeEventView::VersionRefused => ConnectionView::Aborted(
                ConnectionError::NegotiationFailed,
            ),
            UpgradeEventView::VersionAgreed => match connection {
                ConnectionView::Raw { role, established_at } => ConnectionView::VersionAgreed {
                    role,
                    established_at,
                },
                _ => ConnectionView::Aborted(ConnectionError::NegotiationFailed),
            },
            UpgradeEventView::HandshakeCompleted { peer } => match connection {
                ConnectionView::VersionAgreed {
                    role,
                    established_at,
                } => ConnectionView::Authenticated { role, established_at, peer },
                _ => ConnectionView::Aborted(ConnectionError::NegotiationFailed),
            },
            UpgradeEventView::MultiplexersNamed { remote } => match connection {
                ConnectionView::Authenticated {
                    role,
                    established_at,
                    peer,
                } => match agreed_multiplexer(role, plan.multiplexers, remote) {
                    Some(multiplexer) => ConnectionView::Negotiated { peer, multiplexer },
                    None => ConnectionView::Aborted(ConnectionError::UnsupportedMultiplexer),
                },
                _ => ConnectionView::Aborted(ConnectionError::NegotiationFailed),
            },
        }
    }
}

/// The connection after the clock has reached second `now` with no event: it
/// is aborted if it is overdue, and as it was if not.
pub open spec fn after_tick(plan: UpgradePlanView, connection: ConnectionView, now: nat) -> ConnectionView {
    if overdue(plan, connection, now) {
        ConnectionView::Aborted(ConnectionError::UpgradeTimeout)
    } else {
        connection
    }
}

impl Connection {
    /// A connection whose raw socket was established at second `now`.
    pub fn established(role: Role, now: u64) -> (connection: Connection)
        ensures
            connection@ == (ConnectionView::Raw { role, established_at: now as nat }),
    {
        Connection::Raw { role, established_at: now }
    }

    /// Whether the connection is still being upgraded.
    pub fn is_upgrading(&self) -> (yes: bool)
        ensures
            yes == upgrading(self@),
    {
        match self {
            Connection::Negotiated { .. } => false,
            Connection::Aborted(_) => false,
            _ => true,
        }
    }

    /// Whether the connection has used up its time at second `now`.
    pub fn is_overdue(&self, plan: &UpgradePlan, now: u64) -> (yes: bool)
        ensures
            yes == overdue(plan@, self@, now as nat),
    {
        let since: u64 = match self {
            Connection::Raw { established_at, .. } => *established_at,
            Connection::VersionAgreed { established_at, .. } => *established_at,
            Connection::Authenticated { established_at, .. } => *established_at,
            _ => {
                return false;
            },
        };
        now >= since && now - since >= plan.timeout_secs
    }

    /// A copy of the connection.
    pub fn duplicate(&self) -> (copy: Connection)
        ensures
            copy@ == self@,
    {
        match self {
            Connection::Raw { role, established_at } => Connection::Raw {
                role: *role,
                established_at: *established_at,
            },
            Connection::VersionAgreed { role, established_at } => Connection::VersionAgreed {
                role: *role,
                established_at: *established_at,
            },
            Connection::Authenticated { role, established_at, peer } => Connection::Authenticated {
                role: *role,
                established_at: *established_at,
                peer: peer.clone(),
            },
            Connection::Negotiated { peer, multiplexer } => Connection::Negotiated {
                peer: peer.clone(),
                multiplexer: *multiplexer,
            },
            Connection::Aborted(error) => Connection::Aborted(*error),
        }
    }

    /// The connection after `event` at second `now`.
    pub fn advance(&self, plan: &UpgradePlan, event: UpgradeEvent, now: u64) -> (next: Connection)
        ensures
            next@ == after_event(plan@, self@, event@, now as nat),
    {
        if !self.is_upgrading() {
            return self.duplicate();
        }
        if self.is_overdue(plan, now) {
            return Connection::Aborted(ConnectionError::UpgradeTimeout);
        }
        match event {
            UpgradeEvent::Closed => Connection::Aborted(ConnectionError::Disconnected),
            UpgradeEvent::HandshakeFailed => Connection::Aborted(ConnectionError::HandshakeFailed),
            UpgradeEvent::VersionRefused => Connection::Aborted(ConnectionError::NegotiationFailed),
            UpgradeEvent::VersionAgreed => match self {
                Connection::Raw { role, established_at } => Connection::VersionAgreed {
                    role: *role,
                    established_at: *established_at,
                },
                _ => Connection::Aborted(ConnectionError::NegotiationFailed),
            },
            UpgradeEvent::HandshakeCompleted { peer } => match self {
                Connection::VersionAgreed { role, established_at } => Connection::Authenticated {
                    role: *role,
                    established_at: *established_at,
                    peer,
                },
                _ => Connection::Aborted(ConnectionError::NegotiationFailed),
            },
            UpgradeEvent::MultiplexersNamed { remote } => match self {
                Connection::Authenticated { role, established_at, peer } => {
                    let chosen = match role {
                        Role::Dialer => select_multiplexer(&plan.multiplexers, &remote),
                        Role::Listener => select_multiplexer(&remote, &plan.multiplexers),
                    };
                    match chosen {
                        Some(multiplexer) => Connection::Negotiated {
                            peer: peer.clone(),
                            multiplexer,
                        },
                        None => Connection::Aborted(ConnectionError::UnsupportedMultiplexer),
                    }
                },
                _ => Connection::Aborted(ConnectionError::NegotiationFailed),
            },
        }
    }

    /// The connection after the clock has reached second `now` with no event.
    pub fn tick(&self, plan: &UpgradePlan, now: u64) -> (next: Connection)
        ensures
            next@ == after_tick(plan@, self@, now as nat),
    {
        if self.is_overdue(plan, now) {
            Connection::Aborted(ConnectionError::UpgradeTimeout)
        } else {
            self.duplicate()
        }
    }
}

/// The views of a sequence of connections, in order.
pub open spec fn connection_views(connections: Seq<Connection>) -> Seq<ConnectionView> {
    connections.map_values(|connection: Connection| connection@)
}

/// The table after `event` was delivered to the connection at `index`: that
/// connection moves on, every other entry is as it was. An index beyond the
/// table changes nothing.
pub open spec fn delivered(
    plan: UpgradePlanView,
    table: Seq<ConnectionView>,
    index: int,
    event: UpgradeEventView,
    now: nat,
) -> Seq<ConnectionView> {
    if 0 <= index < table.len() {
        table.update(index, after_event(plan, table[index], event, now))
    } else {
        table
    }
}

/// The table after the clock has reached second `now`: each connection is
/// judged by its own age.
pub open spec fn ticked(plan: UpgradePlanView, table: Seq<ConnectionView>, now: nat) -> Seq<
    ConnectionView,
> {
    table.map_values(|connection: ConnectionView| after_tick(plan, connection, now))
}

/// The connections of a node, each with its own state.
#[derive(Debug, Clone, PartialEq, Eq)]
pub struct Connections {
    entries: Vec<Connection>,
}

impl View for Connections {
    type V = Seq<ConnectionView>;

    closed spec fn view(&self) -> Seq<ConnectionView> {
        connection_views(self.entries@)
    }
}

impl Connections {
    /// A table without connections.
    pub fn new() -> (table: Connections)
        ensures
            table@ == Seq::<ConnectionView>::empty(),
    {
        let table = Connections { entries: Vec::new() };
        assert(table@ =~= Seq::<ConnectionView>::empty());
        table
    }

    /// The number of connections in the table.
    pub fn len(&self) -> (count: usize)
        ensures
            count == self@.len(),
    {
        self.entries.len()
    }

    /// Enters a connection whose raw socket was established at second `now`,
    /// and returns its index. The connections already in the table keep
    /// theirs.
    pub fn accept(&mut self, role: Role, now: u64) -> (index: usize)
        ensures
            index == old(self)@.len(),
            final(self)@ == old(self)@.push(
                ConnectionView::Raw { role, established_at: now as nat },
            ),
    {
        let index = self.entries.len();
        self.entries.push(Connection::established(role, now));
        assert(self@ =~= old(self)@.push(
            ConnectionView::Raw { role, established_at: now as nat },
        ));
        index
    }

    /// The state of the connection at `index`, if there is one.
    pub fn get(&self, index: usize) -> (connection: Option<Connection>)
        ensures
            index < self@.len() ==> connection is Some && connection->Some_0@ == self@[index as int],
            index >= self@.len() ==> connection is None,
    {
        if index < self.entries.len() {
            Some(self.entries[index].duplicate())
        } else {
            None
        }
    }

    /// Delivers `event` to the connection at `index`, at second `now`.
    pub fn deliver(&mut self, plan: &UpgradePlan, index: usize, event: UpgradeEvent, now: u64)
        ensures
            final(self)@ == delivered(plan@, old(self)@, index as int, event@, now as nat),
    {
        if index < self.entries.len() {
            let next = self.entries[index].advance(plan, event, now);
            self.entries.set(index, next);
            assert(self@ =~= delivered(plan@, old(self)@, index as int, event@, now as nat));
        }
    }

    /// Lets the clock reach second `now`: every connection that is overdue is
    /// aborted, every other is left alone.
    pub fn tick(&mut self, plan: &UpgradePlan, now: u64)
        ensures
            final(self)@ == ticked(plan@, old(self)@, now as nat),
    {
        let mut i: usize = 0;
        while i < self.entries.len()
            invariant
                i <= self.entries.len(),
                self.entries.len() == old(self).entries.len(),
                forall|j: int|
                    0 <= j < i ==> (#[trigger] self.entries@[j])@ == after_tick(
                        plan@,
                        old(self).entries@[j]@,
                        now as nat,
                    ),
                forall|j: int|
                    i <= j < self.entries.len() ==> (#[trigger] self.entries@[j])@ == old(
                        self,
                    ).entries@[j]@,
            decreases self.entries.len() - i,
        {
            let next = self.entries[i].tick(plan, now);
            self.entries.set(i, next);
            i = i + 1;
        }
        assert(self@ =~= ticked(plan@, old(self)@, now as nat));
    }
}

/// A connection is negotiated only in time, and only with a multiplexer that
/// both ends have: where an event completes the upgrade, the plan's limit
/// had not passed since the raw socket was established, the peer is the one
/// that the handshake authenticated, and the multiplexer is among the node's
/// own and among those that the remote end named.
pub proof fn lemma_negotiated_in_time(
    plan: UpgradePlanView,
    connection: ConnectionView,
    event: UpgradeEventView,
    now: nat,
)
    requires
        upgrading(connection),
    ensures
        after_event(plan, connection, event, now) matches ConnectionView::Negotiated {
            peer,
            multiplexer,
        } ==> {
            &&& now < established_at(connection) + plan.timeout_secs
            &&& connection matches ConnectionView::Authenticated { role, established_at, peer: p }
            &&& p == peer
            &&& event matches UpgradeEventView::MultiplexersNamed { remote }
            &&& remote.contains(multiplexer)
            &&& plan.multiplexers.contains(multiplexer)
        },
{
    match (connection, event) {
        (
            ConnectionView::Authenticated { role, established_at, peer },
            UpgradeEventView::MultiplexersNamed { remote },
        ) => {
            crate::transport::lemma_negotiated_is_first_shared(plan.multiplexers, remote);
            crate::transport::lemma_negotiated_is_first_shared(remote, plan.multiplexers);
        },
        _ => {},
    }
}

/// An upgrade between two nodes with the standard plan converges: where one
/// dials and the other listens, each step reaches both in time, and the
/// handshake shows each end the other's peer identifier, both end up
/// negotiated, on the same multiplexer, each with the other as its peer.
pub proof fn lemma_upgrade_converges(
    dialer_peer: Seq<char>,
    listener_peer: Seq<char>,
    established: nat,
    now: nat,
)
    requires
        now < established + 20,
    ensures
        ({
            let plan = standard_upgrade();
            let dialer = after_event(
                plan,
                after_event(
                    plan,
                    after_event(
                        plan,
                        ConnectionView::Raw { role: Role::Dialer, established_at: established },
                        UpgradeEventView::VersionAgreed,
                        now,
                    ),
                    UpgradeEventView::HandshakeCompleted { peer: listener_peer },
                    now,
                ),
                UpgradeEventView::MultiplexersNamed { remote: plan.multiplexers },
                now,
            );
            let listener = after_event(
                plan,
                after_event(
                    plan,
                    after_event(
                        plan,
                        ConnectionView::Raw { role: Role::Listener, established_at: established },
                        UpgradeEventView::VersionAgreed,
                        now,
                    ),
                    UpgradeEventView::HandshakeCompleted { peer: dialer_peer },
                    now,
                ),
                UpgradeEventView::MultiplexersNamed { remote: plan.multiplexers },
                now,
            );
            &&& dialer == (ConnectionView::Negotiated {
                peer: listener_peer,
                multiplexer: Multiplexer::Yamux,
            })
            &&& listener == (ConnectionView::Negotiated {
                peer: dialer_peer,
                multiplexer: Multiplexer::Yamux,
            })
        }),
{
    let offers = standard_upgrade().multiplexers;
    assert(offers[0] == Multiplexer::Yamux);
    crate::transport::lemma_same_preferences_converge(offers);
}

/// A connection that is overdue is aborted by whatever reaches it next, an
/// event or the clock, and by nothing else than the time limit: it ends as
/// `UpgradeTimeout`.
pub proof fn lemma_overdue_is_aborted(
    plan: UpgradePlanView,
    connection: ConnectionView,
    event: UpgradeEventView,
    now: nat,
)
    requires
        overdue(plan, connection, now),
    ensures
        after_event(plan, connection, event, now) == ConnectionView::Aborted(
            ConnectionError::UpgradeTimeout,
        ),
        after_tick(plan, connection, now) == ConnectionView::Aborted(
            ConnectionError::UpgradeTimeout,
        ),
{
}

/// Whatever happens to one connection happens to that connection alone: an
/// event for the connection at `index` leaves every other entry of the table
/// as it was, and so does the clock for every connection that is not
/// overdue. A connection that times out takes no other with it.
pub proof fn lemma_connections_are_isolated(
    plan: UpgradePlanView,
    table: Seq<ConnectionView>,
    index: int,
    event: UpgradeEventView,
    now: nat,
    other: int,
)
    requires
        0 <= other < table.len(),
        other != index,
    ensures
        delivered(plan, table, index, event, now).len() == table.len(),
        delivered(plan, table, index, event, now)[other] == table[other],
        ticked(plan, table, now).len() == table.len(),
        !overdue(plan, table[other], now) ==> ticked(plan, table, now)[other] == table[other],
{
}

/// While one connection times out, a second one completes: with the standard
/// plan, a connection that is overdue at second `now` is aborted by the
/// clock, and a connection beside it that is authenticated and in time is
/// negotiated by the multiplexers that arrive at that same second.
pub proof fn lemma_timeout_spares_other_connections(
    table: Seq<ConnectionView>,
    slow: int,
    fast: int,
    now: nat,
)
    requires
        0 <= slow < table.len(),
        0 <= fast < table.len(),
        slow != fast,
        overdue(standard_upgrade(), table[slow], now),
        table[fast] is Authenticated,
        !overdue(standard_upgrade(), table[fast], now),
    ensures
        ({
            let plan = standard_upgrade();
            let after = delivered(
                plan,
                ticked(plan, table, now),
                fast,
                UpgradeEventView::MultiplexersNamed { remote: plan.multiplexers },
                now,
            );
            &&& after[slow] == ConnectionView::Aborted(ConnectionError::UpgradeTimeout)
            &&& after[fast] matches ConnectionView::Negotiated { peer, multiplexer }
            &&& multiplexer == Multiplexer::Yamux
            &&& peer == table[fast]->Authenticated_peer
        }),
{
    let plan = standard_upgrade();
    let offers = plan.multiplexers;
    assert(offers[0] == Multiplexer::Yamux);
    crate::transport::lemma_same_preferences_converge(offers);
    let middle = ticked(plan, table, now);
    assert(middle[fast] == table[fast]);
    assert(middle[slow] == ConnectionView::Aborted(ConnectionError::UpgradeTimeout));
}

} // verus!
