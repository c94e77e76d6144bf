use egui::Id;
use egui_styled::PseudoState;

#[test]
fn memory_roundtrip() {
    let ctx = egui::Context::default();
    let id = Id::new("ps-test");
    let state = PseudoState { hovered: true, active: false, focused: true };
    ctx.memory_mut(|mem| mem.data.insert_temp(id, state));
    let loaded = ctx.memory_mut(|mem| mem.data.get_temp::<PseudoState>(id).unwrap_or_default());
    assert!(loaded.hovered);
    assert!(!loaded.active);
    assert!(loaded.focused);
}

#[test]
fn unset_id_returns_default() {
    let ctx = egui::Context::default();
    let id = Id::new("ps-never-stored");
    let loaded = ctx.memory_mut(|mem| mem.data.get_temp::<PseudoState>(id).unwrap_or_default());
    assert!(!loaded.hovered);
    assert!(!loaded.active);
    assert!(!loaded.focused);
}

#[test]
fn from_flags_maps_response_flags() {
    let s = PseudoState::from_flags(true, false, true);
    assert_eq!(s, PseudoState { hovered: true, active: false, focused: true });
    assert_eq!(PseudoState::default(), PseudoState::from_flags(false, false, false));
}
