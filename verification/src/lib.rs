//! Decision engine for an autonomous farming agent on a grid farm.
//!
//! Each simulation tick the host reports the agent's state; the agent answers
//! with at most one action.  The pipeline is: resource maintenance (buying
//! consumables and selling produce through host calls, modelled here as a
//! state machine), then, if the agent is idle, an expanding-ring search for
//! workable fields, prioritization of the candidates, and the dispatch of a
//! single work or move action.

pub mod classifier;
pub mod dispatcher;
pub mod maintenance;
pub mod model;
pub mod pipeline;
pub mod prioritizer;
pub mod search;
