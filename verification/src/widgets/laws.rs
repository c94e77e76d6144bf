//! Properties of the text-effect stacking.
use vstd::prelude::*;
use crate::widgets::text_effects::{TextEffects, TextLayer};

verus! {

/// A label's effects stack glow at the bottom, then every shadow in the
/// order it was added, then the outline, then the text on top: one layer per
/// effect and exactly one text layer, last.
pub proof fn law_text_layers_order<O, G, S>(fx: TextEffects<O, G, S>)
    ensures
        ({
            let l = fx.layers_spec();
            let g: int = if fx.glow is Some { 1 } else { 0 };
            let o: int = if fx.outline is Some { 1 } else { 0 };
            &&& l.len() == g + fx.shadows@.len() + o + 1
            &&& l.last() == TextLayer::<O, G>::Main
            &&& forall|i: int| 0 <= i < l.len() - 1 ==> !(l[i] is Main)
            &&& fx.glow matches Some(gl) ==> l[0] == TextLayer::<O, G>::Glow(gl)
            &&& forall|i: int|
                0 <= i < fx.shadows@.len() ==> l[g + i] == TextLayer::<O, G>::Shadow(fx.shadows@[i])
            &&& fx.outline matches Some(ol) ==> l[l.len() - 2] == TextLayer::<O, G>::Outline(ol)
        }),
{
    let l = fx.layers_spec();
    let gs: Seq<TextLayer<O, G>> = match fx.glow {
        Some(gl) => seq![TextLayer::Glow(gl)],
        None => Seq::empty(),
    };
    let ss = fx.shadows@.map_values(|s| TextLayer::<O, G>::Shadow(s));
    let os: Seq<TextLayer<O, G>> = match fx.outline {
        Some(ol) => seq![TextLayer::Outline(ol)],
        None => Seq::empty(),
    };
    assert(l == gs + ss + os + seq![TextLayer::<O, G>::Main]);
    let g: int = gs.len() as int;
    assert forall|i: int| 0 <= i < l.len() - 1 implies !(l[i] is Main) by {
        if i < g {
            assert(l[i] == gs[i]);
        } else if i < g + ss.len() {
            assert(l[i] == ss[i - g]);
        } else {
            assert(l[i] == os[i - g - ss.len()]);
        }
    }
    assert forall|i: int| 0 <= i < fx.shadows@.len() implies l[g + i] == TextLayer::<O, G>::Shadow(
        fx.shadows@[i],
    ) by {
        assert(l[g + i] == ss[i]);
    }
}

/// A label has no effect exactly when it would stamp nothing but its text
/// and apply no scale: any shadow, outline or glow adds a layer, and a scale
/// transforms the stamps. So a label with an outline (or any other effect)
/// never takes the plain path.
pub proof fn law_text_effects_empty_iff_plain<O, G, S>(fx: TextEffects<O, G, S>)
    ensures
        fx.is_empty_spec() <==> (fx.layers_spec().len() == 1 && fx.scale is None),
        fx.outline is Some ==> !fx.is_empty_spec(),
        fx.glow is Some ==> !fx.is_empty_spec(),
        fx.scale is Some ==> !fx.is_empty_spec(),
        fx.shadows@.len() > 0 ==> !fx.is_empty_spec(),
{
    law_text_layers_order(fx);
}

} // verus!
