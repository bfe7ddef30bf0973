//! Core of an anime download pipeline.
//!
//! The crate covers the stages that turn a protected episode page into a
//! direct download handed to an external download engine: rendition
//! enumeration and selection, the obfuscation-decode cipher that recovers a
//! hidden redirect form, the challenge-response protocol that defeats the
//! site's anti-bot layer, and the task orchestrator that drives the engine
//! to completion.  Network and process I/O live outside this crate; every
//! decision and every parse on untrusted markup lives here, with contracts.

pub mod anime;
pub mod bypass;
pub mod cipher;
pub mod download;
pub mod errors;
pub mod extract;
pub mod orchestrator;
pub mod pahe;
pub mod quality;
pub mod resolver;
pub mod strutil;
pub mod utils;
