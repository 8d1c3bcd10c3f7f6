//! Perception and validation core of an agent that watches a graphical client:
//! cue detection on raw frames, snapshot normalisation, intent and snapshot
//! validation, and the latency budgets of the pipeline.

pub mod binary32;
pub mod capture;
pub mod clock;
pub mod detection;
pub mod integration;
pub mod intent;
pub mod phase;
pub mod region;
pub mod schema;
pub mod snapshot;
pub mod text;
pub mod timing;
pub mod types;
pub mod validation;
