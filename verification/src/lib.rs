//! Translation of a program's control-flow graphs and of its uses of
//! synchronization primitives into a Petri net.
//!
//! The net models every interleaving of the program: places stand for program
//! points and for the states of mutexes, condition variables and threads,
//! transitions for the steps between them.
#![allow(unused_imports)]

pub mod naming;
pub mod error_handling;
pub mod petri_net_interface;
pub mod net_model;
pub mod program;
pub mod utils;
pub mod translator;
pub mod semantics;
pub mod export;
