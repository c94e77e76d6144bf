//! The decisions each styled widget makes before handing its result to egui.
pub mod button;
pub mod common;
pub mod image;
pub mod label;
pub mod text_edit;
pub mod text_effects;
pub mod laws;
