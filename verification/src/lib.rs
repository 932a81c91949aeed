//! The decision logic of a route tracer: which probe to send next, how long
//! to listen for an answer, and what to print for every hop on the way to a
//! destination.
//!
//! Nothing in this crate touches a socket, a resolver or a clock. A caller
//! performs each [`session::Action`] and reports what happened as a
//! [`session::Event`], together with the reading of its clock; the crate
//! answers with the lines to print.
//!
//! - [`startup`] turns a command line into a session, or into the help text.
//! - [`config`] holds the settings of a session and reads the command line.
//! - [`session`] runs the hops one after the other.
//! - [`prober`] runs one hop: one probe, and the wait for its answer.
//! - [`report`] holds the lines of the output and writes them out.
//! - [`destination`] picks the address that the probes go to.
//! - [`text`] writes and reads decimal numbers.
//! - [`prober_trace`] and [`session_trace`] state and prove what holds of
//!   every hop and of every session, whatever happens on the network.

pub mod config;
pub mod destination;
pub mod prober;
pub mod prober_trace;
pub mod report;
pub mod session;
pub mod session_trace;
pub mod startup;
pub mod text;
