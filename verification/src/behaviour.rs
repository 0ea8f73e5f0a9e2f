//! The behaviours that the node runs on every connection: the rendezvous
//! protocol always, the liveness probe where it is switched on.

use vstd::prelude::*;

verus! {

/// Seconds between two probes of a connection: a day.
pub const PING_INTERVAL_SECS: u64 = 86_400;

/// A protocol that the node speaks on a connection.
#[derive(Debug, Clone, Copy, PartialEq, Eq, Structural)]
pub enum Protocol {
    Ping,
    Rendezvous,
}

/// The settings of the liveness probe.
#[derive(Debug, Clone, Copy, PartialEq, Eq, Structural)]
pub struct PingSettings {
    /// Whether the probe alone keeps a connection open.
    pub keep_alive: bool,
    /// Seconds between two probes.
    pub interval_secs: u64,
}

/// The node's behaviours: the liveness probe, which may be switched off, and
/// the rendezvous protocol, which may not.
#[derive(Debug, Clone, Copy, PartialEq, Eq, Structural)]
pub struct Behaviour {
    pub ping: Option<PingSettings>,
}

/// The behaviours of a node: with the probe, it probes once a day and does
/// not keep connections open for its own sake; without, there is no probe.
pub open spec fn behaviour_for(enable_ping: bool) -> Behaviour {
    Behaviour {
        ping: if enable_ping {
            Some(PingSettings { keep_alive: false, interval_secs: 86_400 })
        } else {
            None
        },
    }
}

impl Behaviour {
    /// The behaviours of a node, with or without the liveness probe.
    pub fn new(enable_ping: bool) -> (behaviour: Behaviour)
        ensures
            behaviour == behaviour_for(enable_ping),
    {
        let ping = if enable_ping {
            Some(PingSettings { keep_alive: false, interval_secs: PING_INTERVAL_SECS })
        } else {
            None
        };
        Behaviour { ping }
    }

    /// The protocols that the behaviours speak.
    pub open spec fn spec_protocols(&self) -> Seq<Protocol> {
        match self.ping {
            Some(_) => seq![Protocol::Ping, Protocol::Rendezvous],
            None => seq![Protocol::Rendezvous],
        }
    }

    /// The number of timers that the behaviours keep running on a
    /// connection.
    pub open spec fn spec_periodic_timers(&self) -> nat {
        match self.ping {
            Some(_) => 1,
            None => 0,
        }
    }

    /// The protocols that the behaviours speak, the probe's first.
    pub fn protocols(&self) -> (protocols: Vec<Protocol>)
        ensures
            protocols@ == self.spec_protocols(),
    {
        let mut protocols: Vec<Protocol> = Vec::new();
        if self.ping.is_some() {
            protocols.push(Protocol::Ping);
        }
        protocols.push(Protocol::Rendezvous);
        assert(protocols@ =~= self.spec_protocols());
        protocols
    }

    /// The number of timers that the behaviours keep running on a
    /// connection: one for the probe's interval, none without the probe.
    pub fn periodic_timers(&self) -> (timers: usize)
        ensures
            timers == self.spec_periodic_timers(),
    {
        if self.ping.is_some() {
            1
        } else {
            0
        }
    }
}

/// A node without the liveness probe speaks the rendezvous protocol and
/// nothing else, and runs no timer; a node with it speaks both and runs one.
/// The rendezvous protocol is spoken either way.
pub proof fn lemma_probe_is_optional(enable_ping: bool)
    ensures
        behaviour_for(enable_ping).spec_protocols().contains(Protocol::Rendezvous),
        behaviour_for(enable_ping).spec_protocols().contains(Protocol::Ping) <==> enable_ping,
        !enable_ping ==> behaviour_for(enable_ping).spec_protocols() == seq![Protocol::Rendezvous]
            && behaviour_for(enable_ping).spec_periodic_timers() == 0,
        enable_ping ==> behaviour_for(enable_ping).spec_periodic_timers() == 1,
{
    let protocols = behaviour_for(enable_ping).spec_protocols();
    if enable_ping {
        assert(protocols[0] == Protocol::Ping);
        assert(protocols[1] == Protocol::Rendezvous);
    } else {
        assert(protocols[0] == Protocol::Rendezvous);
    }
}

} // verus!
