//! A minimal stored-program computer: a machine of 16-bit words that
//! fetches, decodes and executes instructions held in its own memory until
//! it halts or has used up its step budget.
//!
//! `codec` maps instruction words to descriptors and back, `machine` says
//! what a cycle and a run do to the machine's state, `cpu` is the machine
//! in executable form, `lemmas` holds what is proved of every cycle and
//! run, and `image` is a small program to run.

pub mod codec;
pub mod cpu;
pub mod image;
pub mod lemmas;
pub mod machine;
