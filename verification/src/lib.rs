//! Real-time state replication for a service instance that owns a counter:
//! the state cell, local fan-out of every change to subscribers, and
//! best-effort propagation of every change to a shared message bus.
//!
//! - [`counter`]: the state cell and its wrap-around arithmetic.
//! - [`store`]: the keyed variant of the state.
//! - [`fanout`]: local publish/subscribe over tokio's broadcast channel.
//! - [`bus`]: the bus connector's reconnect-and-drop decisions.
//! - [`wire`]: bus subject and payload.
//! - [`mutation`]: the mutation handler, which ties the above together.
//! - [`entity`]: entity resolution against the keyed state.
//! - [`schema`]: operation names and listening port of an instance.

pub mod counter;
pub mod store;
pub mod fanout;
pub mod bus;
pub mod wire;
pub mod mutation;
pub mod entity;
pub mod schema;
