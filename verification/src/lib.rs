//! The core of a long-lived tool server that exposes a fixed set of tools
//! to an AI-assistant client and, for the interactive ones, hands off to a
//! short-lived UI process to collect human input.
//!
//! What is verified here is the dispatch layer and the human-in-the-loop
//! bridge: the registry that decides, per call and under live
//! configuration, which tools are reachable; the request/response protocol
//! carried over a temporary file and process stdio; and the reconciliation
//! of heterogeneous response payloads — free text, choices, images — into
//! one ordered content list, shaped per calling client. Around them stand
//! the per-project history stores, the prompt-enhancement payload, and the
//! smaller decision rules the server's glue leans on.
//!
//! Everything that computes is specified and proved; what talks to the
//! world — files, processes, the network, the clock, randomness — is either
//! a small trusted wrapper over an outside crate or lives with the caller,
//! which feeds the outcomes back into the verified functions.

pub mod catalog;
pub mod content;
pub mod digest;
pub mod dispatch;
pub mod enhance;
pub mod history;
pub mod icon;
pub mod jsontext;
pub mod jsonval;
pub mod logger;
pub mod netinfo;
pub mod reconcile;
pub mod resolver;
pub mod strutil;
pub mod sys;
pub mod transport;
pub mod uiux;
pub mod zhi_history;
