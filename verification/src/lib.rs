//! An interactive command shell, seen as decisions over plain values: which
//! built-in a line names, how a line splits into pipeline stages, and what a
//! pipeline run must do next given how the previous step went.

pub mod clock;
pub mod dialog;
pub mod executor;
pub mod guarantees;
pub mod pipeline;
pub mod router;
pub mod text;
