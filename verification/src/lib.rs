//! The process execution layer of a command interpreter: the decisions around
//! duplicating the calling process, replacing a process image and waiting for
//! a child, stated over plain values and verified.
//!
//! The operating-system calls themselves are made by the caller. This crate
//! says which call comes next, validates what is handed to it, and decodes
//! what it hands back.

pub mod command;
pub mod env;
pub mod error;
pub mod exec;
pub mod fork;
pub mod run;
pub mod text;
pub mod wait;

pub use crate::command::{Arg, Command};
pub use crate::env::{getenv, VarName};
pub use crate::error::Error;
pub use crate::exec::ExecRequest;
pub use crate::fork::ForkReturn;
pub use crate::run::{step, Action, Event, RunState};
pub use crate::wait::{WaitReturn, WaitStatus};
