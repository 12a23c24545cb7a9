//! A minimal HTTP gateway over a local system-management RPC bus.
//!
//! The library holds the request-handling core: routing an HTTP request
//! into a typed intent, building the bus requests, interpreting the bus
//! replies, and mapping results to HTTP status codes and bodies. The
//! surrounding process (socket handling, process spawning) lives outside
//! the library and exchanges plain values with it.

pub mod strutil;

pub mod router;

pub mod jsonfmt;

pub mod busjson;

pub mod session;

pub mod response;
