//! Orchestration of long-running remote jobs: classification of status
//! payloads, a bounded polling state machine, recovery of robot statistics
//! from loosely shaped JSON, and the stage sequencing of a whole pipeline run.

pub mod job;
pub mod poll;
pub mod replay;
pub mod laws;
pub mod json;
pub mod stats;
pub mod assets;
pub mod pipeline;
pub mod client;
pub mod text;
pub mod generation;
pub mod stages;
