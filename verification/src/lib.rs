//! Decision core of a libp2p rendezvous node.
//!
//! A rendezvous node lets peers register under a namespace and lets other
//! peers discover them. The node itself (files, sockets, the swarm) lives
//! outside this crate. What is here are the rules that it follows, as
//! functions from plain values to plain values with machine-checked
//! contracts:
//!
//! - [`identity`] and [`keyfile`]: the node's key pair, and the key file that
//!   is never overwritten;
//! - [`tls`]: the TLS material of the secure WebSocket listener;
//! - [`transport`] and [`upgrade`]: the plan of the transport, and what it
//!   means for one connection;
//! - [`behaviour`], [`listen`], [`logging`], [`events`]: the pieces of a
//!   node;
//! - [`server`] and [`node`]: the node as a whole, from its first step to its
//!   event loop;
//! - [`io`] and [`text`]: what the others share.
//!
//! A host drives the library: it starts a [`node::Node`], carries out the
//! commands that it is handed, and reports what came of them.

pub mod behaviour;
pub mod events;
pub mod identity;
pub mod io;
pub mod keyfile;
pub mod listen;
pub mod logging;
pub mod node;
pub mod server;
pub mod text;
pub mod tls;
pub mod transport;
pub mod upgrade;
