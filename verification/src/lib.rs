//! Request handling for the development RPC of a Fiber node.
//!
//! Every remote call is split in two: a function that turns the parameters of the call into the
//! command for the node, and a function that turns the node's reply into the answer to the call.
//! What happens in between (sending the command and waiting for the reply) is left to the caller.

pub mod chain;
pub mod commitment;
pub mod dev;
pub mod error;
pub mod fee;
pub mod hexadecimal;
pub mod keys;
pub mod laws;
pub mod message;
pub mod network;
pub mod signing;
pub mod text;
pub mod transaction;
pub mod types;
pub mod watchtower;
pub mod witness;
