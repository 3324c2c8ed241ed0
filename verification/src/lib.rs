//! A verified core for a command-line convenience layer over the `git`
//! binary.
//!
//! The crate models each shorthand verb as an immutable invocation
//! description (`GitCommand`), assembles argument vectors deterministically,
//! classifies working-tree state from porcelain status output, sequences
//! multi-step verbs through an explicit state machine with precondition
//! checks, composes filter pipelines for configuration listings, and
//! evaluates the pre-commit policy rules (author identity and disallowed
//! content).  All process spawning, environment reading and terminal
//! handling live outside this crate; callers hand in the observed bytes and
//! flags and drive the state machines.

pub mod cli;
pub mod composite;
pub mod env_vars;
pub mod git;
pub mod helpers;
pub mod immutable;
pub mod mutable;
pub mod numbers;
pub mod outcome;
pub mod pipeline;
pub mod policy;
pub mod ripgrep;
pub mod status;
pub mod text;
