//! Texture readback for a render graph.
//!
//! A readback copies a device-resident texture into a host-visible staging
//! buffer, waits for the buffer to be mapped, strips the row padding that the
//! device's copy engine demands, and hands the tightly packed pixels to an
//! asset store.
//!
//! The crate holds the decisions of that protocol and proves them; it never
//! talks to a device itself. [`node::ReadTextureNode`] is a state machine: a
//! driver feeds it the outcome of the last device or store operation as an
//! [`node::Event`] and performs the [`node::Command`] it answers with.
//!
//! * [`layout`] plans row pitch, padding and buffer size.
//! * [`staging`] keeps the lifecycle of the one staging buffer of a readback.
//! * [`unpack`] removes row padding from mapped bytes.
//! * [`node`] ties the three together, one invocation at a time.
//! * [`graph`], [`texture`] and [`error`] hold the values that these speak of.
pub mod error;
pub mod graph;
pub mod layout;
pub mod node;
pub mod staging;
pub mod texture;
pub mod unpack;
