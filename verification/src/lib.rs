//! Keeps the repositories of a working tree linked to the remote references
//! that a manifest asks for.
//!
//! A manifest lists repositories, each of which may be pinned to a commit, a
//! tag or a branch, with a manifest-wide default branch behind them. For every
//! entry the library decides what the local branch should track, hands the
//! "set upstream" command to an executor where one is due, and reports one
//! outcome per entry, whatever happened to the others.

pub mod executor;
pub mod laws;
pub mod launch;
pub mod manifest;
pub mod outcome;
pub mod paths;
pub mod repository;
pub mod resolve;
pub mod sink;
pub mod style;
pub mod track;
