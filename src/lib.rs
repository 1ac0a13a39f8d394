//! Decisions of a launcher that runs a bundled Python interpreter on the
//! `cfsai` module: where the interpreter lies relative to the launcher, what
//! the child is handed (arguments, environment), and which status the
//! launcher ends with.

pub mod invocation;
pub mod layout;
pub mod outcome;
pub mod launch;
