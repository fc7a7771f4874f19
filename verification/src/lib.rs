//! Launch configuration and device hand-off for a single virtual machine
//! that takes over PCI devices of the host.
//!
//! The crate has two halves. [`context`] collects the options of a machine
//! and compiles them into a launch plan: the argument vector, the
//! environment and the files the hypervisor expects to find. [`runner`]
//! decides, step by step, which external tool has to run next in order to
//! hand the devices to the guest and to take them back afterwards.

pub mod cli;
pub mod config;
pub mod context;
pub mod runner;
pub mod text;
pub mod util;
