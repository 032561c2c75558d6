//! Per-frame overlay compositor: queued rectangles and text, flushed once per
//! frame into an ordered list of render steps.

pub mod compositor;
pub mod decimal;
pub mod frame;
pub mod laws;
pub mod queue;
pub mod rectangle;
pub mod scalar;
pub mod text;
pub mod ui;
