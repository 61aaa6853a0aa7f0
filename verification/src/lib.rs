//! The update-aggregation and render loop of a live terminal dashboard.
//!
//! Three independent sources deliver the query log, the statistics and the
//! service status. The loop merges them into one snapshot, decides when a
//! frame may be drawn, lays the screen out, reacts to the quit keys and keeps
//! track of the terminal modes that have to be given back on exit.

pub mod geometry;
pub mod solver;
pub mod layout;
pub mod render;
pub mod input;
pub mod shutdown;
pub mod terminal;
pub mod snapshot;
pub mod render_loop;
pub mod traces;
