//! Atomic trailing-whitespace remover: the verified core.
//!
//! The library holds the logic of the tool: line trimming, binary
//! detection, configuration parsing, the ignore predicate for the
//! recursive walk, temporary-file naming, and the decision rules of the
//! atomic write-replace protocol. The thin shell that performs the
//! filesystem calls lives outside the library and consults these
//! functions for every decision.

pub mod config;
pub mod content;
pub mod ignore;
pub mod pathname;
pub mod strutil;
pub mod tempname;
pub mod trim;
pub mod walker;
pub mod writer;
