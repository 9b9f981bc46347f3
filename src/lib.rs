//! Hosting of a managed runtime that executes a program image held only in
//! memory: the decisions of the bind interceptor, the dynamic value marshaler,
//! the reflection invoker and the session that drives them, with their
//! contracts. The native calls themselves are performed by the host program.

pub mod error;
pub mod guid;
pub mod wide;
pub mod variant;
pub mod array;
pub mod store;
pub mod runtime;
pub mod reflect;
pub mod identity;
pub mod exit;
pub mod output;
pub mod session;
