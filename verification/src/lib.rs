//! Connection brokerage for a TCP reverse proxy tunnelled over WebSocket.
//!
//! Two processes cooperate. The *front* accepts client TCP connections and is
//! reached by the intermediary over HTTP/WebSocket; the *back* sits next to
//! the origin and dials out. This crate holds the rules both sides follow:
//! identifiers, the frames on the wire, the command channel, the rendezvous
//! of a TCP connection with its data channel, and the decisions every flow of
//! a session takes on each event. Sockets, timers and tasks belong to the
//! program around it, which performs what these functions decide.
//!
//! On the front:
//! - [`front`] is the shared state, one method for each event, with the
//!   tally that its history implies;
//! - [`acceptor`] decides on an accepted TCP connection;
//! - [`controller`] and [`bridge`] bind the one controller and serve it;
//! - [`rendezvous`] and [`endpoint`] pair a data channel with its pending
//!   connection;
//! - [`pipe`] and [`queue`] are the bounded queues between the two sides of
//!   a session.
//!
//! On the back:
//! - [`client`] keeps the control channel and reads commands;
//! - [`endpoint`] runs the session that a command asks for.
//!
//! On both:
//! - [`id`], [`frame`], [`command`], [`routes`] and [`text`] are what goes
//!   over the wire;
//! - [`splice`] holds the four flows of a session and the rule that ends
//!   them together;
//! - [`arguments`] names the two roles.

pub mod acceptor;
pub mod arguments;
pub mod bridge;
pub mod client;
pub mod command;
pub mod controller;
pub mod endpoint;
pub mod frame;
pub mod front;
pub mod id;
pub mod pipe;
pub mod queue;
pub mod rendezvous;
pub mod routes;
pub mod splice;
pub mod text;
