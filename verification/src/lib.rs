//! The core of an NMOS IS-04 node: its resources and their JSON forms, the
//! registries it discovers, its registration with one of them, and the Node
//! API that it serves. Every function states what it returns, and the
//! statements are proved.
//!
//! The library decides and computes; it does no input or output. A caller
//! browses DNS-SD and hands in what it found, sleeps and sends where the
//! registration worker asks for it, and passes each HTTP request to
//! `service::respond`.

pub mod error;
pub mod ident;
pub mod json;
pub mod mdns;
pub mod model;
pub mod node;
pub mod registration;
pub mod registry;
pub mod resource;
pub mod schema;
pub mod service;
pub mod store;
pub mod tags;
pub mod tai;
pub mod text;
pub mod version;
pub mod worker;
