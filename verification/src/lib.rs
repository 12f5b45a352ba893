//! Core of a personal identity-alignment tracker: a user names an identity
//! and its traits, logs behaviors scored for alignment with it, and gets a
//! reflection on each day from a completion API.
//!
//! The crate decides; a host performs. Every command is a small protocol:
//! the library names the next storage statement or completion request, the
//! host carries it out and reports what happened, and the library decides
//! what follows until the command is done.
//!
//! - [`user`], [`identity`], [`trait_`], [`behavior`], [`reflection`] and
//!   [`analytics`] hold the records and start the commands;
//! - [`protocol`] holds the steps and [`protocol::resume`], which takes a
//!   command from one step to the next;
//! - [`run`] states what holds of every run of a command, whatever the host
//!   reports;
//! - [`statement`] and [`schema`] hold what the store is asked, [`value`] and
//!   [`record`] how its rows are read;
//! - [`completion`] composes the request for a reflection and reads the
//!   answer, with [`json`] for the response body and [`text`] for the rest;
//! - [`failure`] names what can go wrong.

pub mod analytics;
pub mod behavior;
pub mod completion;
pub mod failure;
pub mod identity;
pub mod json;
pub mod protocol;
pub mod record;
pub mod reflection;
pub mod run;
pub mod schema;
pub mod statement;
pub mod text;
pub mod trait_;
pub mod user;
pub mod value;
