//! What calls of the library come to, stated of their arguments and results.
//!
//! Each law speaks of calls: `call_ensures(f, arguments, result)` holds of a
//! call of `f` that gave `result`. A law says what the result has to do with
//! the arguments, or with the result of another call.

pub mod grant;
pub mod guest;
pub mod json;
pub mod policy;
pub mod report;
pub mod run;
pub mod runner;
pub mod session;
pub mod text;
pub mod wire;
