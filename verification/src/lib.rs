//! A system-information summarizer library.
//!
//! The library gathers a fixed set of facts about a host (distribution
//! name, kernel version, shell, desktop session, uptime, installed-package
//! count, hostname).  Every fact is obtained by walking an ordered fallback
//! chain of probes; a probe's raw output is normalized by verified string
//! functions, and a chain that is exhausted degrades to the sentinel
//! `"Unknown"` instead of failing.  The probes themselves (subprocesses,
//! environment variables, files) run outside the library and hand their
//! raw output in as plain values.

pub mod chain;
pub mod collect;
pub mod facts;
pub mod lines;
pub mod packages;
pub mod text;
