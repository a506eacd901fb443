//! The presentation side's store: the authoritative components and widgets, changed by
//! messages from the control side and by user input, which it reports back.

use vstd::prelude::*;

use linked_hash_map::LinkedHashMap;

use crate::common::{
    AddRangedVar, AddVar, Button, Component, EnumStringRepr, FromGuiLoopMessage, ImageRgba8,
    Number, PlaceEntity3, RangedVar, ToGuiLoopMessage, UpdateButton, UpdateEnumStringRepr,
    UpdateScenePoseEntity3, UpdateValue, Var,
};
use crate::entities::{NamedEntity3, Pose};
use crate::label_map::{
    insert_entry, lemma_lookup_insert, lemma_lookup_set, lookup, remove_key,
    set_value,
};
use crate::tables::{
    component_entries, components_get, components_get_mut, components_insert, components_new,
    components_remove, entities_get, entities_get_mut, entities_insert, entities_new,
    entity_entries, widget_entries, widgets_get, widgets_get_mut, widgets_insert, widgets_new,
};

verus! {

/// Widget showing a 2d image.
pub struct Widget2 {
    /// The background image.
    pub image: ImageRgba8,
}

/// Widget showing a 3d scene.
pub struct Widget3 {
    /// The placed entities, by name, in placement order.
    pub entities: LinkedHashMap<String, NamedEntity3>,
}

/// A widget of the main panel.
pub enum Widget {
    /// 2d widget.
    Widget2(Widget2),
    /// 3d widget.
    Widget3(Widget3),
}

/// What a widget shows: an image, or a scene of named entities.
pub enum WidgetView {
    /// 2d widget with its image.
    Image(ImageRgba8),
    /// 3d widget with its entities, in order.
    Scene(Seq<(Seq<char>, NamedEntity3)>),
}

pub open spec fn widget_view(w: Widget) -> WidgetView {
    match w {
        Widget::Widget2(w2) => WidgetView::Image(w2.image),
        Widget::Widget3(w3) => WidgetView::Scene(entity_entries(w3.entities)),
    }
}

pub open spec fn widget_views(s: Seq<(Seq<char>, Widget)>) -> Seq<(Seq<char>, WidgetView)> {
    s.map_values(|e: (Seq<char>, Widget)| (e.0, widget_view(e.1)))
}

pub proof fn lemma_views_set(s: Seq<(Seq<char>, Widget)>, k: Seq<char>, w: Widget)
    ensures
        widget_views(set_value(s, k, w)) == set_value(widget_views(s), k, widget_view(w)),
{
    assert(widget_views(set_value(s, k, w)) =~= set_value(widget_views(s), k, widget_view(w)));
}

pub proof fn lemma_views_remove(s: Seq<(Seq<char>, Widget)>, k: Seq<char>)
    ensures
        widget_views(remove_key(s, k)) == remove_key(widget_views(s), k),
    decreases s.len(),
{
    if s.len() > 0 {
        lemma_views_remove(s.drop_last(), k);
        assert(widget_views(s).drop_last() =~= widget_views(s.drop_last()));
        if s.last().0 != k {
            assert(widget_views(remove_key(s, k)) =~= widget_views(remove_key(s.drop_last(), k)).push(
                (s.last().0, widget_view(s.last().1)),
            ));
        }
    }
}

pub proof fn lemma_views_insert(s: Seq<(Seq<char>, Widget)>, k: Seq<char>, w: Widget)
    ensures
        widget_views(insert_entry(s, k, w)) == insert_entry(widget_views(s), k, widget_view(w)),
{
    lemma_views_remove(s, k);
    assert(widget_views(insert_entry(s, k, w)) =~= widget_views(remove_key(s, k)).push((k, widget_view(w))));
}

pub proof fn lemma_views_lookup(s: Seq<(Seq<char>, Widget)>, k: Seq<char>)
    ensures
        lookup(widget_views(s), k) == (match lookup(s, k) {
            Some(w) => Some(widget_view(w)),
            None => None,
        }),
    decreases s.len(),
{
    if s.len() > 0 {
        lemma_views_lookup(s.drop_last(), k);
        assert(widget_views(s).drop_last() =~= widget_views(s.drop_last()));
    }
}

/// The component that a message adds, with its label.
pub open spec fn added_component(m: ToGuiLoopMessage) -> Option<(Seq<char>, Component)> {
    match m {
        ToGuiLoopMessage::AddEnumStringRepr(a) => Some(
            (a.label@, Component::EnumStringRepr(EnumStringRepr { value: a.value, values: a.values })),
        ),
        ToGuiLoopMessage::AddButton(a) => Some((a.label@, Component::Button(Button { pressed: false }))),
        ToGuiLoopMessage::AddVarBool(a) => Some((a.label@, Component::VarBool(Var { value: a.value }))),
        ToGuiLoopMessage::AddVarUSize(a) => Some((a.label@, Component::VarUSize(Var { value: a.value }))),
        ToGuiLoopMessage::AddVarI32(a) => Some((a.label@, Component::VarI32(Var { value: a.value }))),
        ToGuiLoopMessage::AddVarI64(a) => Some((a.label@, Component::VarI64(Var { value: a.value }))),
        ToGuiLoopMessage::AddRangedVarUSize(a) => Some(
            (a.label@, Component::RangedVarUSize(RangedVar { value: a.value, min: a.min, max: a.max })),
        ),
        ToGuiLoopMessage::AddRangedVarI32(a) => Some(
            (a.label@, Component::RangedVarI32(RangedVar { value: a.value, min: a.min, max: a.max })),
        ),
        ToGuiLoopMessage::AddRangedVarI64(a) => Some(
            (a.label@, Component::RangedVarI64(RangedVar { value: a.value, min: a.min, max: a.max })),
        ),
        ToGuiLoopMessage::AddVarF32(a) => Some((a.label@, Component::VarF32(Var { value: a.value }))),
        ToGuiLoopMessage::AddVarF64(a) => Some((a.label@, Component::VarF64(Var { value: a.value }))),
        ToGuiLoopMessage::AddRangedVarF32(a) => Some(
            (a.label@, Component::RangedVarF32(RangedVar { value: a.value, min: a.min, max: a.max })),
        ),
        ToGuiLoopMessage::AddRangedVarF64(a) => Some(
            (a.label@, Component::RangedVarF64(RangedVar { value: a.value, min: a.min, max: a.max })),
        ),
        _ => None,
    }
}

/// The components after the presentation side applies `m`.
pub open spec fn gui_step_components(
    c: Seq<(Seq<char>, Component)>,
    m: ToGuiLoopMessage,
) -> Seq<(Seq<char>, Component)> {
    match added_component(m) {
        Some(e) => insert_entry(c, e.0, e.1),
        None => match m {
            ToGuiLoopMessage::DeleteComponent(d) => remove_key(c, d.label@),
            _ => c,
        },
    }
}

/// Whether `m` can be applied: entity messages need their 3d widget.
pub open spec fn gui_step_ok(w: Seq<(Seq<char>, WidgetView)>, m: ToGuiLoopMessage) -> bool {
    match m {
        ToGuiLoopMessage::PlaceEntity3(p) => lookup(w, p.widget_label@) matches Some(
            WidgetView::Scene(_),
        ),
        ToGuiLoopMessage::UpdateScenePoseEntity3(u) => lookup(w, u.widget_label@) matches Some(
            WidgetView::Scene(_),
        ),
        _ => true,
    }
}

/// The entities of the 3d widget `k`, if it is one.
pub open spec fn scene_of(w: Seq<(Seq<char>, WidgetView)>, k: Seq<char>) -> Seq<(Seq<char>, NamedEntity3)> {
    match lookup(w, k) {
        Some(WidgetView::Scene(es)) => es,
        _ => Seq::empty(),
    }
}

/// The entities of a scene after the pose of `k` is set to `pose`; unchanged if there
/// is no such entity.
pub open spec fn scene_with_pose(
    es: Seq<(Seq<char>, NamedEntity3)>,
    k: Seq<char>,
    pose: Pose,
) -> Seq<(Seq<char>, NamedEntity3)> {
    match lookup(es, k) {
        Some(e) => set_value(es, k, NamedEntity3 { scene_pose_entity: pose, ..e }),
        None => es,
    }
}

/// The widgets after the presentation side applies `m`.
pub open spec fn gui_step_widgets(
    w: Seq<(Seq<char>, WidgetView)>,
    m: ToGuiLoopMessage,
) -> Seq<(Seq<char>, WidgetView)> {
    match m {
        ToGuiLoopMessage::AddWidget2(a) => insert_entry(w, a.label@, WidgetView::Image(a.image)),
        ToGuiLoopMessage::AddWidget3(a) => insert_entry(w, a.label@, WidgetView::Scene(Seq::empty())),
        ToGuiLoopMessage::PlaceEntity3(p) => set_value(
            w,
            p.widget_label@,
            WidgetView::Scene(
                insert_entry(scene_of(w, p.widget_label@), p.named_entity.label@, p.named_entity),
            ),
        ),
        ToGuiLoopMessage::UpdateScenePoseEntity3(u) => set_value(
            w,
            u.widget_label@,
            WidgetView::Scene(
                scene_with_pose(scene_of(w, u.widget_label@), u.entity_label@, u.scene_pose_entity),
            ),
        ),
        _ => w,
    }
}

/// The pose of entity `e` of the 3d widget `k`, if both exist.
pub open spec fn spec_entity_pose(w: Seq<(Seq<char>, WidgetView)>, k: Seq<char>, e: Seq<char>) -> Option<Pose> {
    match lookup(w, k) {
        Some(WidgetView::Scene(es)) => match lookup(es, e) {
            Some(x) => Some(x.scene_pose_entity),
            None => None,
        },
        _ => None,
    }
}

/// `v` clamped into `[min, max]`, the lower bound first.
pub open spec fn clamped<T: Number>(v: T, min: T, max: T) -> T {
    if v.spec_int() < min.spec_int() {
        min
    } else if v.spec_int() > max.spec_int() {
        max
    } else {
        v
    }
}

/// The presentation side's components (side panel) and widgets (main panel).
pub struct GuiData {
    /// Components such as buttons and sliders, in display order.
    pub components: LinkedHashMap<String, Component>,
    /// Widgets such as 3d scenes, in display order.
    pub widgets: LinkedHashMap<String, Widget>,
}

impl GuiData {
    /// The components, in display order.
    pub open spec fn component_view(&self) -> Seq<(Seq<char>, Component)> {
        component_entries(self.components)
    }

    /// The widgets, in display order.
    pub open spec fn widget_view(&self) -> Seq<(Seq<char>, WidgetView)> {
        widget_views(widget_entries(self.widgets))
    }

    /// An empty store.
    pub fn new() -> (r: GuiData)
        ensures
            r.component_view() == Seq::<(Seq<char>, Component)>::empty(),
            r.widget_view() == Seq::<(Seq<char>, WidgetView)>::empty(),
    {
        let r = GuiData { components: components_new(), widgets: widgets_new() };
        assert(r.widget_view() =~= Seq::<(Seq<char>, WidgetView)>::empty());
        r
    }

    /// Whether `m` can be applied: an entity message needs its 3d widget.
    pub fn accepts(&self, m: &ToGuiLoopMessage) -> (r: bool)
        ensures
            r == gui_step_ok(self.widget_view(), *m),
    {
        let widget_label = match m {
            ToGuiLoopMessage::PlaceEntity3(p) => &p.widget_label,
            ToGuiLoopMessage::UpdateScenePoseEntity3(u) => &u.widget_label,
            _ => {
                return true;
            },
        };
        proof {
            lemma_views_lookup(widget_entries(self.widgets), widget_label@);
        }
        matches!(widgets_get(&self.widgets, widget_label), Some(Widget::Widget3(_)))
    }

    /// The component under `label`, if any.
    pub fn component(&self, label: &String) -> (r: Option<&Component>)
        ensures
            r is None <==> lookup(self.component_view(), label@) is None,
            r is Some ==> lookup(self.component_view(), label@) == Some(*(r->0)),
    {
        components_get(&self.components, label)
    }

    /// The pose of entity `entity_label` of the 3d widget `widget_label`, if both exist.
    pub fn entity_pose(&self, widget_label: &String, entity_label: &String) -> (r: Option<Pose>)
        ensures
            r == spec_entity_pose(self.widget_view(), widget_label@, entity_label@),
    {
        proof {
            lemma_views_lookup(widget_entries(self.widgets), widget_label@);
        }
        match widgets_get(&self.widgets, widget_label) {
            Some(Widget::Widget3(w3)) => match entities_get(&w3.entities, entity_label) {
                Some(e) => Some(e.scene_pose_entity),
                None => None,
            },
            _ => None,
        }
    }

    /// The checkbox `label` was set to `value`: stores it and reports it if it changed.
    pub fn set_bool(&mut self, label: &String, value: bool) -> (r: Option<FromGuiLoopMessage>)
        ensures
            final(self).widgets == old(self).widgets,
            match lookup(old(self).component_view(), label@) {
                Some(Component::VarBool(v)) if v.value != value => {
                    &&& r == Some(FromGuiLoopMessage::UpdateValueBool(UpdateValue { label: *label, value }))
                    &&& final(self).component_view() == set_value(
                        old(self).component_view(),
                        label@,
                        Component::VarBool(Var { value }),
                    )
                },
                _ => r is None && final(self).component_view() == old(self).component_view(),
            },
    {
        let current = match components_get(&self.components, label) {
            Some(Component::VarBool(v)) => Some(v.value),
            _ => None,
        };
        match current {
            Some(x) => {
                if x == value {
                    return None;
                }
                match components_get_mut(&mut self.components, label) {
                    Some(c) => {
                        *c = Component::VarBool(Var { value });
                    },
                    None => {},
                }
                Some(FromGuiLoopMessage::UpdateValueBool(UpdateValue { label: label.clone(), value }))
            },
            None => None,
        }
    }

    /// The combo box `label` was set to `value`: stores it and reports it if it is one
    /// of the box's values and differs from the current one.
    pub fn select_enum(&mut self, label: &String, value: String) -> (r: Option<FromGuiLoopMessage>)
        ensures
            final(self).widgets == old(self).widgets,
            match lookup(old(self).component_view(), label@) {
                Some(Component::EnumStringRepr(e)) if e.value@ != value@ && exists|i: int|
                    0 <= i < e.values@.len() && (#[trigger] e.values@[i])@ == value@ => {
                    &&& r == Some(FromGuiLoopMessage::UpdateEnumStringRepr(UpdateEnumStringRepr { label: *label, value }))
                    &&& final(self).component_view() == set_value(
                        old(self).component_view(),
                        label@,
                        Component::EnumStringRepr(EnumStringRepr { value, values: e.values }),
                    )
                },
                _ => r is None && final(self).component_view() == old(self).component_view(),
            },
    {
        match components_get(&self.components, label) {
            Some(Component::EnumStringRepr(e)) => {
                if e.value == value {
                    return None;
                }
                let mut i: usize = 0;
                let mut found = false;
                while i < e.values.len() && !found
                    invariant
                        0 <= i <= e.values@.len(),
                        found ==> i < e.values@.len() && e.values@[i as int]@ == value@,
                        !found ==> forall|j: int| 0 <= j < i ==> (#[trigger] e.values@[j])@ != value@,
                    decreases e.values@.len() - i + (if found { 0int } else { 1int }),
                {
                    if e.values[i] == value {
                        found = true;
                    } else {
                        i = i + 1;
                    }
                }
                if !found {
                    return None;
                }
            },
            _ => {
                return None;
            },
        }
        match components_get_mut(&mut self.components, label) {
            Some(c) => match c {
                Component::EnumStringRepr(e) => {
                    e.value = value.clone();
                },
                _ => {},
            },
            None => {},
        }
        Some(FromGuiLoopMessage::UpdateEnumStringRepr(UpdateEnumStringRepr { label: label.clone(), value }))
    }

    /// The slider `label` was moved to `value`: stores it, clamped into the slider's
    /// bounds, and reports it if it changed.
    pub fn set_ranged_value<T: Number>(&mut self, label: &String, value: T) -> (r: Option<FromGuiLoopMessage>)
        ensures
            final(self).widgets == old(self).widgets,
            match lookup(old(self).component_view(), label@) {
                Some(c) => match T::ranged_of(c) {
                    Some(rv) => {
                        let v = clamped(value, rv.min, rv.max);
                        if v != rv.value {
                            &&& r == Some(T::update_ranged_msg(*label, v))
                            &&& final(self).component_view() == set_value(
                                old(self).component_view(),
                                label@,
                                T::ranged_component(RangedVar { value: v, ..rv }),
                            )
                        } else {
                            r is None && final(self).component_view() == old(self).component_view()
                        }
                    },
                    None => r is None && final(self).component_view() == old(self).component_view(),
                },
                None => r is None && final(self).component_view() == old(self).component_view(),
            },
    {
        let rv = match components_get(&self.components, label) {
            Some(c) => match T::read_ranged(c) {
                Some(rv) => rv,
                None => {
                    return None;
                },
            },
            None => {
                return None;
            },
        };
        let v = value.clamp_into((rv.min, rv.max));
        if v.equals(rv.value) {
            return None;
        }
        match components_get_mut(&mut self.components, label) {
            Some(c) => {
                *c = T::to_ranged_component(RangedVar { value: v, min: rv.min, max: rv.max });
            },
            None => {},
        }
        Some(v.update_range_value_message(label.clone()))
    }

    /// The button `label` was clicked: reports the press.
    pub fn click_button(&self, label: &String) -> (r: Option<FromGuiLoopMessage>)
        ensures
            r == (if lookup(self.component_view(), label@) matches Some(Component::Button(_)) {
                Some(FromGuiLoopMessage::UpdateButton(UpdateButton { label: *label }))
            } else {
                None
            }),
    {
        match components_get(&self.components, label) {
            Some(Component::Button(_)) => Some(FromGuiLoopMessage::UpdateButton(UpdateButton { label: label.clone() })),
            _ => None,
        }
    }
}

/// The component that `m` adds, built.
fn component_of_add(m: ToGuiLoopMessage) -> (r: Option<(String, Component)>)
    ensures
        match r {
            Some(e) => added_component(m) == Some((e.0@, e.1)),
            None => added_component(m) is None,
        },
{
    match m {
        ToGuiLoopMessage::AddEnumStringRepr(a) => Some(
            (a.label, Component::EnumStringRepr(EnumStringRepr { value: a.value, values: a.values })),
        ),
        ToGuiLoopMessage::AddButton(a) => Some((a.label, Component::Button(Button { pressed: false }))),
        ToGuiLoopMessage::AddVarBool(a) => Some((a.label, Component::VarBool(Var { value: a.value }))),
        ToGuiLoopMessage::AddVarUSize(a) => Some((a.label, Component::VarUSize(Var { value: a.value }))),
        ToGuiLoopMessage::AddVarI32(a) => Some((a.label, Component::VarI32(Var { value: a.value }))),
        ToGuiLoopMessage::AddVarI64(a) => Some((a.label, Component::VarI64(Var { value: a.value }))),
        ToGuiLoopMessage::AddRangedVarUSize(a) => Some(
            (a.label, Component::RangedVarUSize(RangedVar { value: a.value, min: a.min, max: a.max })),
        ),
        ToGuiLoopMessage::AddRangedVarI32(a) => Some(
            (a.label, Component::RangedVarI32(RangedVar { value: a.value, min: a.min, max: a.max })),
        ),
        ToGuiLoopMessage::AddRangedVarI64(a) => Some(
            (a.label, Component::RangedVarI64(RangedVar { value: a.value, min: a.min, max: a.max })),
        ),
        ToGuiLoopMessage::AddVarF32(a) => Some((a.label, Component::VarF32(Var { value: a.value }))),
        ToGuiLoopMessage::AddVarF64(a) => Some((a.label, Component::VarF64(Var { value: a.value }))),
        ToGuiLoopMessage::AddRangedVarF32(a) => Some(
            (a.label, Component::RangedVarF32(RangedVar { value: a.value, min: a.min, max: a.max })),
        ),
        ToGuiLoopMessage::AddRangedVarF64(a) => Some(
            (a.label, Component::RangedVarF64(RangedVar { value: a.value, min: a.min, max: a.max })),
        ),
        _ => None,
    }
}

impl ToGuiLoopMessage {
    /// Applies the message to the presentation side's store: adding is insert-or-replace,
    /// deleting a missing component and moving a missing entity do nothing.
    pub fn update_gui(self, data: &mut GuiData)
        requires
            gui_step_ok(old(data).widget_view(), self),
        ensures
            final(data).component_view() == gui_step_components(old(data).component_view(), self),
            final(data).widget_view() == gui_step_widgets(old(data).widget_view(), self),
    {
        let ghost ws = widget_entries(data.widgets);
        match self {
            ToGuiLoopMessage::AddWidget2(a) => {
                proof {
                    lemma_views_insert(ws, a.label@, Widget::Widget2(Widget2 { image: a.image }));
                }
                widgets_insert(&mut data.widgets, a.label, Widget::Widget2(Widget2 { image: a.image }));
            },
            ToGuiLoopMessage::AddWidget3(a) => {
                let w = Widget::Widget3(Widget3 { entities: entities_new() });
                proof {
                    lemma_views_insert(ws, a.label@, w);
                }
                widgets_insert(&mut data.widgets, a.label, w);
            },
            ToGuiLoopMessage::PlaceEntity3(p) => {
                let PlaceEntity3 { widget_label, named_entity } = p;
                proof {
                    lemma_views_lookup(ws, widget_label@);
                }
                match widgets_get_mut(&mut data.widgets, &widget_label) {
                    Some(w) => match w {
                        Widget::Widget3(w3) => {
                            let key = named_entity.label.clone();
                            entities_insert(&mut w3.entities, key, named_entity);
                        },
                        Widget::Widget2(_) => {},
                    },
                    None => {},
                }
                proof {
                    let nw = lookup(widget_entries(data.widgets), widget_label@);
                    lemma_views_set(ws, widget_label@, nw->0);
                }
            },
            ToGuiLoopMessage::UpdateScenePoseEntity3(u) => {
                let UpdateScenePoseEntity3 { widget_label, entity_label, scene_pose_entity } = u;
                proof {
                    lemma_views_lookup(ws, widget_label@);
                }
                match widgets_get_mut(&mut data.widgets, &widget_label) {
                    Some(w) => match w {
                        Widget::Widget3(w3) => {
                            match entities_get_mut(&mut w3.entities, &entity_label) {
                                Some(e) => {
                                    e.scene_pose_entity = scene_pose_entity;
                                },
                                None => {},
                            }
                        },
                        Widget::Widget2(_) => {},
                    },
                    None => {},
                }
                proof {
                    let nw = lookup(widget_entries(data.widgets), widget_label@);
                    lemma_views_set(ws, widget_label@, nw->0);
                }
            },
            ToGuiLoopMessage::DeleteComponent(d) => {
                components_remove(&mut data.components, &d.label);
            },
            _ => {
                match component_of_add(self) {
                    Some(e) => {
                        components_insert(&mut data.components, e.0, e.1);
                    },
                    None => {},
                }
            },
        }
    }
}

} // verus!
