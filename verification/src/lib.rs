//! Newsletter subscriptions: the lifecycle of a subscriber from the submitted
//! form to the redeemed confirmation link.
//!
//! The crate decides and computes; it performs no I/O. A host program talks to
//! the database and to the mail provider, and reports back what happened.
//!
//! - [`domain`]: the values a registration is made of, valid by construction.
//! - [`email_client`]: the request that sends one email, and what the reply
//!   to it means.
//! - [`routes`]: the registration and the confirmation, each as a sequence of
//!   steps that the host program follows.
//! - [`store`]: the subscriber store, kept in memory.
//! - [`service`]: both workflows followed to their answer against that store.
//! - [`configuration`]: the settings, and what is derived from them.

pub mod configuration;
pub mod domain;
pub mod email_client;
pub mod routes;
pub mod service;
pub mod store;
pub mod text;
