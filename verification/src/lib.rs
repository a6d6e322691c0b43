//! A programmable mock RPC server core: a rule table mapping request paths to
//! pre-configured responses, a schema-agnostic wire codec operating on opaque
//! byte payloads at the framing layer, and the dispatcher that answers each
//! call from the first matching rule.
//!
//! Network listening, task spawning and the transport adapters live outside
//! this crate; the core here is pure logic over plain values.

pub mod codec;
pub mod dispatch;
pub mod rule;
pub mod status;
pub mod table;
