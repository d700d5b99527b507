//! The decision core of `nub cook`, the verb that compiles a script ahead of
//! time with PerryTS, checks the binary against Node and caches it.

pub mod text;
pub mod outside;
pub mod bound;
pub mod supervise;
pub mod process;
pub mod keys;
pub mod failure;
pub mod verify;
pub mod check;
pub mod compile;
pub mod session;
pub mod flow;
pub mod args;
pub mod laws;
pub mod steps;
