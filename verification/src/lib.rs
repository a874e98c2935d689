//! A protocol choreography checker: global multiparty protocol trees, their
//! per-role local projections, and the static analyses (role disjointness of
//! parallel branches, label uniqueness) that make a protocol well-formed.
//!
//! A global protocol is a tree of interaction, choice, parallel and recursion
//! nodes ([`global::TSession`]); projecting it onto one participant yields that
//! participant's local protocol ([`local::EpSession`]): the sends, receives,
//! offers and parallel runs it must perform. Every algorithm here is a pure,
//! total function over immutable trees, and each carries a contract that pins
//! its result down exactly.

pub mod types;
pub mod global;
pub mod local;
pub mod introspection;
pub mod utils;
pub mod transforms;
pub mod checks;
pub mod laws;

pub use types::Label;
pub use types::Msg;
pub use types::ProtocolError;
pub use types::RoleId;
pub use types::Transport;
pub use global::TSession;
pub use local::EpSession;
