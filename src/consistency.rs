//! Facts about how the two sides stay in step, stated over the models that the
//! operations' contracts use.

use vstd::prelude::*;

use crate::common::{
    Button, Component, EnumStringRepr, Number, PlaceEntity3, RangedVar, ToGuiLoopMessage,
    UpdateScenePoseEntity3, Var,
};
use crate::entities::Pose;
use crate::gui::{
    clamped, gui_step_ok, gui_step_widgets, scene_of, scene_with_pose, spec_entity_pose,
    WidgetView,
};
use crate::label_map::{insert_entry, lemma_lookup_insert, lemma_lookup_set, lookup, set_value};
use crate::manager::{edge, mirror_step, mirror_step_ok, Manager, UiEnum, UiRangedVar, UiVar};

verus! {

/// Whatever the mirror held, once a component is added under `label` the mirror holds
/// that component there, before any message has gone to the presentation side.
pub proof fn lemma_added_component_is_mirrored(before: Seq<(Seq<char>, Component)>, label: Seq<char>, c: Component)
    ensures
        lookup(insert_entry(before, label, c), label) == Some(c),
{
    lemma_lookup_insert(before, label, c, label);
}

/// Right after `add_number`, `add_ranged_value`, `add_bool` or `add_enum`, the handle's
/// read gives the value passed in.
pub proof fn lemma_added_value_is_read_back<T: Number>(before: Manager, after: Manager, label: Seq<char>, v: T, min_max: (T, T), b: bool, e: EnumStringRepr)
    ensures
        after.mirror() == insert_entry(before.mirror(), label, T::var_component(v))
            ==> UiVar::<T>::current_number(&after, label) == Some(v),
        after.mirror() == insert_entry(before.mirror(), label, T::ranged_component(RangedVar { value: v, min: min_max.0, max: min_max.1 }))
            ==> UiRangedVar::<T>::current(&after, label)->0.value == v,
        after.mirror() == insert_entry(before.mirror(), label, Component::VarBool(Var { value: b }))
            ==> UiVar::<bool>::current(&after, label) == Some(b),
        after.mirror() == insert_entry(before.mirror(), label, Component::EnumStringRepr(e))
            ==> UiEnum::current(&after, label) == Some(e.value),
        after.mirror() == insert_entry(before.mirror(), label, Component::Button(Button { pressed: false }))
            ==> after.slot(label) == Some(Component::Button(Button { pressed: false })),
{
    T::lemma_number_kind(v, v, RangedVar { value: v, min: min_max.0, max: min_max.1 });
    lemma_lookup_insert(before.mirror(), label, T::var_component(v), label);
    lemma_lookup_insert(before.mirror(), label, T::ranged_component(RangedVar { value: v, min: min_max.0, max: min_max.1 }), label);
    lemma_lookup_insert(before.mirror(), label, Component::VarBool(Var { value: b }), label);
    lemma_lookup_insert(before.mirror(), label, Component::EnumStringRepr(e), label);
    lemma_lookup_insert(before.mirror(), label, Component::Button(Button { pressed: false }), label);
}

/// A slider value that the presentation side reports is the user's input clamped into
/// the slider's bounds; once the control side applies the report to a slider with those
/// bounds, its handle reads exactly that value, and the value lies within the bounds.
pub proof fn lemma_slider_update_stays_in_bounds<T: Number>(c: Seq<(Seq<char>, Component)>, label: String, r: RangedVar<T>, input: T)
    requires
        lookup(c, label@) == Some(T::ranged_component(r)),
        r.min.spec_int() <= r.max.spec_int(),
    ensures
        ({
            let v = clamped(input, r.min, r.max);
            let after = mirror_step(c, T::update_ranged_msg(label, v));
            &&& mirror_step_ok(c, T::update_ranged_msg(label, v))
            &&& lookup(after, label@) == Some(T::ranged_component(RangedVar { value: v, min: r.min, max: r.max }))
            &&& T::ranged_of(lookup(after, label@)->0) == Some(RangedVar { value: v, min: r.min, max: r.max })
            &&& r.min.spec_int() <= v.spec_int() <= r.max.spec_int()
        }),
{
    let v = clamped(input, r.min, r.max);
    let nc = T::ranged_component(RangedVar { value: v, min: r.min, max: r.max });
    T::lemma_update_ranged(c, label, r, v);
    lemma_lookup_set(c, label@, nc, label@);
    T::lemma_number_kind(v, v, RangedVar { value: v, min: r.min, max: r.max });
}

/// An edge-triggered read repeated with no change in between reports nothing.
pub proof fn lemma_second_read_reports_nothing<T>(cache: T, current: T)
    ensures
        edge(edge(cache, current).0, current).1 is None,
        edge(edge(cache, current).0, current).0 == edge(cache, current).0,
{
}

/// In a 3d widget, an entity just placed and then moved is found at its new pose; moving
/// an entity that the widget lacks changes no widget.
pub proof fn lemma_place_then_move(w: Seq<(Seq<char>, WidgetView)>, p: PlaceEntity3, pose: Pose, missing: String)
    requires
        lookup(w, p.widget_label@) matches Some(WidgetView::Scene(_)),
        missing@ != p.named_entity.label@,
        lookup(scene_of(w, p.widget_label@), missing@) is None,
    ensures
        ({
            let w1 = gui_step_widgets(w, ToGuiLoopMessage::PlaceEntity3(p));
            let mv = ToGuiLoopMessage::UpdateScenePoseEntity3(
                UpdateScenePoseEntity3 { widget_label: p.widget_label, entity_label: p.named_entity.label, scene_pose_entity: pose },
            );
            let mv_missing = ToGuiLoopMessage::UpdateScenePoseEntity3(
                UpdateScenePoseEntity3 { widget_label: p.widget_label, entity_label: missing, scene_pose_entity: pose },
            );
            &&& gui_step_ok(w1, mv)
            &&& spec_entity_pose(gui_step_widgets(w1, mv), p.widget_label@, p.named_entity.label@) == Some(pose)
            &&& gui_step_ok(w1, mv_missing)
            &&& forall|k: Seq<char>| #[trigger] lookup(gui_step_widgets(w1, mv_missing), k) == lookup(w1, k)
        }),
{
    let wl = p.widget_label@;
    let el = p.named_entity.label@;
    let es = scene_of(w, wl);
    let es1 = insert_entry(es, el, p.named_entity);
    let w1 = gui_step_widgets(w, ToGuiLoopMessage::PlaceEntity3(p));
    lemma_lookup_set(w, wl, WidgetView::Scene(es1), wl);
    assert(scene_of(w1, wl) == es1);
    lemma_lookup_insert(es, el, p.named_entity, el);
    let ne = lookup(es1, el)->0;
    let es2 = set_value(es1, el, crate::entities::NamedEntity3 { scene_pose_entity: pose, ..ne });
    lemma_lookup_set(w1, wl, WidgetView::Scene(es2), wl);
    lemma_lookup_set(es1, el, crate::entities::NamedEntity3 { scene_pose_entity: pose, ..ne }, el);
    lemma_lookup_insert(es, el, p.named_entity, missing@);
    assert(scene_with_pose(es1, missing@, pose) == es1);
    assert forall|k: Seq<char>| #[trigger] lookup(set_value(w1, wl, WidgetView::Scene(es1)), k) == lookup(w1, k) by {
        lemma_lookup_set(w1, wl, WidgetView::Scene(es1), k);
    }
}

} // verus!
