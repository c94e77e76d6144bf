//! egui types that the style bag carries through without reading them.
use vstd::prelude::*;

verus! {

/// A line width and colour (`egui::Stroke`); carried, never inspected.
#[verifier::external_type_specification]
#[verifier::external_body]
pub struct ExStroke(egui::Stroke);

/// The pointer cursor shown while hovering (`egui::CursorIcon`).
#[verifier::external_type_specification]
#[verifier::external_body]
pub struct ExCursorIcon(egui::CursorIcon);

/// A 2-D offset in points (`egui::Vec2`).
#[verifier::external_type_specification]
#[verifier::external_body]
pub struct ExVec2(egui::Vec2);

/// A screen position in points (`egui::Pos2`).
#[verifier::external_type_specification]
#[verifier::external_body]
pub struct ExPos2(egui::Pos2);

/// An image source with its display options (`egui::Image`).
#[verifier::external_type_specification]
#[verifier::external_body]
pub struct ExImage<'a>(egui::Image<'a>);

/// `egui::Stroke` derives `Clone` and `Copy`: its clone is the same value.
pub assume_specification[ <egui::Stroke as Clone>::clone ](s: &egui::Stroke) -> (r: egui::Stroke)
    ensures
        r == *s,
;

} // verus!
