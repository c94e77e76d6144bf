//! The decisions containers make before handing their result to egui.
pub mod area;
pub mod frame;
pub mod spacer;
pub mod stack;
pub mod laws;
