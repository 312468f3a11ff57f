//! Control core of a bridge between a small control surface (push buttons and
//! rotary knobs) and a home-automation backend.
//!
//! The crate performs no input or output. A driver owns the device and the
//! backend connection; it carries out one [`protocol::Action`] at a time and
//! answers each with a [`protocol::Event`]. Everything the bridge decides — what
//! is written to the device, which service is invoked with which parameters,
//! when the surface dims and when it is restored, how a session ends — is
//! decided by a [`session::Session`], which follows the transition function in
//! [`model`]. What follows from that function for every session is proved in
//! [`laws`].

pub mod actions;
pub mod brightness;
pub mod config;
pub mod dialogue;
pub mod events;
pub mod hass;
pub mod laws;
pub mod model;
pub mod protocol;
pub mod session;
