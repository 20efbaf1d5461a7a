//! Declarative frame graph.

pub mod graph;
pub mod graph_laws;
pub mod schedule;
