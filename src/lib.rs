//! Host-side core of a GPU grid visualisation: the grid's dimensions and scalar
//! fields, the binding layouts shared by the compute and render stages, and the
//! per-frame state machine that orders compute before render.
pub mod grid;
pub mod pipeline;
pub mod renderer;
