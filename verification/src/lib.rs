//! The core of a mailing-list subscription service with double opt-in.
//!
//! A subscription is pending from its registration until the link in the
//! confirmation email is followed, and failed where that email could not be
//! sent. The crate holds the validated identity of a subscriber (`domain`),
//! the store of subscriptions and confirmation tokens with its operations
//! (`db`), and the three operations of the service: registration and
//! confirmation (`handlers`) and the delivery of the confirmation email
//! (`events`), with the answers that the service gives to its two requests
//! (`routes`).
//!
//! Each operation is a sequence of steps: after each answer of the store,
//! the event channel or the mailer it says what is to be done next, and
//! leaves the doing to the caller. A service that talks to a database, a
//! message broker and a mail provider carries the steps out there. The
//! functions of this crate carry them out on its own store, event channel
//! and mail provider, which are kept in memory; their contracts state the
//! effect exactly, over the store as a mathematical value (`db::model`).
//!
//! `lifecycle` states and proves what holds of those effects for every
//! store and every subscriber, and `handlers::protocol` what holds of the
//! order of the steps.

pub mod clock;
pub mod config;
pub mod configuration;
pub mod db;
pub mod domain;
pub mod email_client;
pub mod events;
pub mod handlers;
pub mod identifiers;
pub mod lifecycle;
pub mod routes;
pub mod text;
