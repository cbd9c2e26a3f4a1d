//! The logic of a guest's init agent: the first process of a freshly booted
//! virtual machine.
//!
//! The agent turns a kernel with an initial ramdisk into a guest with its own
//! root filesystem, brings up a minimal network, and then serves a control
//! plane through which the host runs commands in the guest, while it collects
//! the exits of the children that fall to it.
//!
//! This crate decides; it does not act. Every system call, every request to
//! the network and every process is left to the caller, who is told what to
//! do next and reports what happened:
//!
//! - [`bootstrap`] states the plan of the bootstrap, [`plan`] the steps it is
//!   made of, and [`order`] the order they have to keep;
//! - [`config`] turns the guest's configuration into the files to write;
//! - [`sequencer`] hands out the steps of a plan and stops at the first
//!   required one that fails;
//! - [`net`] names the requests that configure the network, in their order;
//! - [`boot`] joins the two into the whole of start-up;
//! - [`control`] answers the host's requests to run a command;
//! - [`reaper`] says how the exits of children are collected;
//! - [`logging`] selects how much is logged;
//! - [`error`] is the one form in which a failure is reported.
//!
//! Each executable function is verified against the spec functions beside
//! it, and the properties that relate them are proved as lemmas.

pub mod boot;
pub mod bootstrap;
pub mod config;
pub mod control;
pub mod error;
pub mod logging;
pub mod net;
pub mod order;
pub mod plan;
pub mod reaper;
pub mod sequencer;
pub mod text;
