//! A verified core for invoking a state-changing method on a remote NEAR
//! smart contract: it validates the inputs, builds a canonical transaction
//! around a freshly observed access-key nonce, signs the hash of its
//! canonical encoding, and interprets the node's terminal status as a
//! tri-state outcome. A read-only query path decodes contract responses.
//!
//! Network and file I/O live outside this crate; the submission pipeline is
//! driven as a state machine (`submit`) that receives gateway events and
//! decides the next action.

pub mod account;
pub mod credentials;
pub mod error;
pub mod crypto;
pub mod encode;
pub mod json;
pub mod network;
pub mod sign;
pub mod submit;
pub mod text;
pub mod types;
pub mod view;
