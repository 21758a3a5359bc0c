//! Credential and session authority of a municipal service platform.
//!
//! The library hashes and verifies secrets (`credentials`, over `hasher`),
//! mints opaque tokens and codes (`token`, over `rng`), keeps accounts,
//! sessions and pending registrations in the identity store (`store`, whose
//! mathematical value is described in `model`), and runs the flows on it:
//! registration, login and token validation for citizens (`actions`) and
//! for employees (`employee_actions`). The event bridge (`events`) turns a
//! "new citizen" event into a registration code in the citizen's mailbox
//! (`mail`). What the flows answer over HTTP is decided in `replies` and
//! `errors`.
//!
//! Time is an argument wherever it matters: every flow takes the instant
//! at which it runs. Whatever is random is specified up to the value that
//! was drawn, and the step that follows the draw is a function of its own
//! with an exact contract. What holds of the flows on every store is
//! proved in `laws`; that the store keeps its constraints, in `invariants`.

pub mod actions;
pub mod citizen;
pub mod credentials;
pub mod employee;
pub mod employee_actions;
pub mod errors;
pub mod events;
pub mod hasher;
pub mod invariants;
pub mod laws;
pub mod mail;
pub mod microservices;
pub mod model;
pub mod oauth;
pub mod replies;
pub mod request;
pub mod rng;
pub mod search;
pub mod server;
pub mod session;
pub mod store;
pub mod text;
pub mod token;
pub mod user;
