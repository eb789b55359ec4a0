//! Trust and ticketing core of a cinema platform.
//!
//! * [`token`] signs and verifies the tokens of three trust domains, each
//!   under a secret of its own; [`payload`] is the text that claims travel as.
//! * [`role`], [`services`] and [`permission`] decide who may act in which
//!   theatre: a closed set of roles, stored by name and granted per theatre,
//!   with the superuser as the one override. [`policy`] says which roles each
//!   action asks for.
//! * [`ledger`] issues tickets, redeems them and marks them used.
//! * [`extractor`] reads the claims of a caller from a request, and
//!   [`handlers`] hold what each request decides.
//!
//! Identifiers are 128-bit numbers and times are whole seconds since the
//! epoch. Every function that depends on the time comes in a form that takes
//! the time as an argument.

pub mod claims;
pub mod error;
pub mod extractor;
pub mod forms;
pub mod handlers;
pub mod ledger;
pub mod mail;
pub mod model;
pub mod password;
pub mod payload;
pub mod permission;
pub mod policy;
pub mod response;
pub mod role;
pub mod services;
pub mod table;
pub mod token;
