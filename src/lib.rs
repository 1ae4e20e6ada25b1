//! Planning and bookkeeping for a media-conversion service: request fields
//! become a job, a job becomes a list of tool invocations, and a small state
//! machine decides what to run, what to clean up and what to answer.
use vstd::prelude::*;

pub mod ids;
pub mod text;
pub mod quality;
pub mod job;
pub mod plan;
pub mod request;
pub mod pipeline;
