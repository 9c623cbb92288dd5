//! Planning of an unprivileged user and mount namespace in which a substitute
//! package store is presented at a fixed path.
//!
//! The library decides; it performs no system call that changes the machine.
//! Each stage of the setup is a function from plain observations (an
//! identity, a directory listing, a path) to the exact list of operations to
//! carry out, in order, each with the way its failure is to be treated.

pub mod cleanup;
pub mod entry;
pub mod failure;
pub mod flags;
pub mod guard;
pub mod identity;
pub mod launch;
pub mod layout;
pub mod mirror;
pub mod namespace;
pub mod path;
pub mod pivot;
pub mod plan;
pub mod setup;
pub mod store;
