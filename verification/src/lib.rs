//! A command-line surface for a cluster-management API, together with a
//! handful of small building blocks (rectangles, points, users, maxima).
//!
//! [`parse`] turns the arguments of a run into an [`Invocation`] or a
//! [`ParseError`]; [`dispatch`] gives the lines to print for an
//! invocation; [`run`] does both and adds the exit status. What they
//! compute is stated in [`grammar`] and [`report`], and [`laws`] holds
//! what follows for every command line.

pub mod grammar;
pub mod invocation;
pub mod laws;
pub mod lexer;
pub mod numbers;
pub mod parser;
pub mod point;
pub mod report;
pub mod shapes;
pub mod text;
pub mod user;

pub use invocation::{Command, Invocation, ParseError, Reason, ResourceKind};
pub use parser::parse;
pub use report::{dispatch, run, Transcript};
