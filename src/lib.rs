//! Building blocks for a minimal user-space thread switch: the stack layout
//! arithmetic, the register record, and a model of what the switch does.
//! Beside them, a small binary search tree, the routing decision of a tiny
//! HTTP server, and an owned-string example.

pub mod context;
pub mod greeting;
pub mod http;
pub mod machine;
pub mod stack;
pub mod thread;
pub mod tree;
