//! Decides whether a named package version has become visible on a remote
//! registry, across two index access models (a locally replicated,
//! version-controlled index and a stateless sparse HTTP index), with a
//! single protocol downgrade retry, a bounded per-check timeout, and a
//! bounded polling loop with a one-time progress notice.
//!
//! The verified core works on plain values: registry records are lists of
//! version strings, transport failures arrive as tagged reasons, and time
//! arrives as elapsed milliseconds against a caller-chosen bound. The
//! surrounding (unverified) binary performs the network and disk work and
//! drives the state machines defined here.

pub mod auth;
pub mod checker;
pub mod errors;
pub mod git;
pub mod negotiate;
pub mod package;
pub mod poll;
pub mod sparse;
