//! The control side: a mirror of every component's value, the queue of messages bound
//! for the presentation side, and the handles through which application code reads
//! values without waiting for the presentation side.

use vstd::prelude::*;

use linked_hash_map::LinkedHashMap;

use crate::common::{
    AddButton, AddEnumStringRepr, AddVar, AddWidget2, AddWidget3, Button, Component,
    DeleteComponent, EnumStringRepr, FromGuiLoopMessage, ImageRgba8, Number, PlaceEntity3,
    RangedVar, ToGuiLoopMessage, UpdateScenePoseEntity3, Var,
};
use crate::entities::{Entity3, NamedEntity3, Pose};
use crate::label_map::{insert_entry, lookup, set_value};
use crate::tables::{
    component_entries, components_get, components_get_mut, components_insert, components_new,
};

verus! {

/// Whether the control side's mirror holds the slot that `m` updates, of its kind.
pub open spec fn mirror_step_ok(c: Seq<(Seq<char>, Component)>, m: FromGuiLoopMessage) -> bool {
    match m {
        FromGuiLoopMessage::UpdateEnumStringRepr(u) => lookup(c, u.label@) matches Some(
            Component::EnumStringRepr(_),
        ),
        FromGuiLoopMessage::UpdateValueBool(u) => lookup(c, u.label@) matches Some(Component::VarBool(_)),
        FromGuiLoopMessage::UpdateRangedValueUSize(u) => lookup(c, u.label@) matches Some(
            Component::RangedVarUSize(_),
        ),
        FromGuiLoopMessage::UpdateRangedValueI32(u) => lookup(c, u.label@) matches Some(
            Component::RangedVarI32(_),
        ),
        FromGuiLoopMessage::UpdateRangedValueI64(u) => lookup(c, u.label@) matches Some(
            Component::RangedVarI64(_),
        ),
        FromGuiLoopMessage::UpdateRangedValueF32(u) => lookup(c, u.label@) matches Some(
            Component::RangedVarF32(_),
        ),
        FromGuiLoopMessage::UpdateRangedValueF64(u) => lookup(c, u.label@) matches Some(
            Component::RangedVarF64(_),
        ),
        FromGuiLoopMessage::UpdateButton(u) => lookup(c, u.label@) matches Some(Component::Button(_)),
    }
}

/// The mirror after the control side applies `m`.
pub open spec fn mirror_step(c: Seq<(Seq<char>, Component)>, m: FromGuiLoopMessage) -> Seq<(Seq<char>, Component)> {
    match m {
        FromGuiLoopMessage::UpdateEnumStringRepr(u) => match lookup(c, u.label@) {
            Some(Component::EnumStringRepr(e)) => set_value(
                c,
                u.label@,
                Component::EnumStringRepr(EnumStringRepr { value: u.value, values: e.values }),
            ),
            _ => c,
        },
        FromGuiLoopMessage::UpdateValueBool(u) => set_value(c, u.label@, Component::VarBool(Var { value: u.value })),
        FromGuiLoopMessage::UpdateRangedValueUSize(u) => match lookup(c, u.label@) {
            Some(Component::RangedVarUSize(r)) => set_value(
                c,
                u.label@,
                Component::RangedVarUSize(RangedVar { value: u.value, ..r }),
            ),
            _ => c,
        },
        FromGuiLoopMessage::UpdateRangedValueI32(u) => match lookup(c, u.label@) {
            Some(Component::RangedVarI32(r)) => set_value(
                c,
                u.label@,
                Component::RangedVarI32(RangedVar { value: u.value, ..r }),
            ),
            _ => c,
        },
        FromGuiLoopMessage::UpdateRangedValueI64(u) => match lookup(c, u.label@) {
            Some(Component::RangedVarI64(r)) => set_value(
                c,
                u.label@,
                Component::RangedVarI64(RangedVar { value: u.value, ..r }),
            ),
            _ => c,
        },
        FromGuiLoopMessage::UpdateRangedValueF32(u) => match lookup(c, u.label@) {
            Some(Component::RangedVarF32(r)) => set_value(
                c,
                u.label@,
                Component::RangedVarF32(RangedVar { value: u.value, ..r }),
            ),
            _ => c,
        },
        FromGuiLoopMessage::UpdateRangedValueF64(u) => match lookup(c, u.label@) {
            Some(Component::RangedVarF64(r)) => set_value(
                c,
                u.label@,
                Component::RangedVarF64(RangedVar { value: u.value, ..r }),
            ),
            _ => c,
        },
        FromGuiLoopMessage::UpdateButton(u) => set_value(c, u.label@, Component::Button(Button { pressed: true })),
    }
}

/// The mirror after the control side applies `ms` in order.
pub open spec fn mirror_steps(c: Seq<(Seq<char>, Component)>, ms: Seq<FromGuiLoopMessage>) -> Seq<(Seq<char>, Component)>
    decreases ms.len(),
{
    if ms.len() == 0 {
        c
    } else {
        mirror_step(mirror_steps(c, ms.drop_last()), ms.last())
    }
}

/// Whether each of `ms` finds its slot once those before it are applied.
pub open spec fn mirror_steps_ok(c: Seq<(Seq<char>, Component)>, ms: Seq<FromGuiLoopMessage>) -> bool {
    forall|i: int| 0 <= i < ms.len() ==> mirror_step_ok(#[trigger] mirror_steps(c, ms.take(i)), ms[i])
}

impl FromGuiLoopMessage {
    /// Applies the message to the control side's mirror.
    pub fn update(&self, components: &mut LinkedHashMap<String, Component>)
        requires
            mirror_step_ok(component_entries(*old(components)), *self),
        ensures
            component_entries(*final(components)) == mirror_step(component_entries(*old(components)), *self),
    {
        match self {
            FromGuiLoopMessage::UpdateEnumStringRepr(u) => match components_get_mut(components, &u.label) {
                Some(c) => match c {
                    Component::EnumStringRepr(e) => {
                        e.value = u.value.clone();
                    },
                    _ => {},
                },
                None => {},
            },
            FromGuiLoopMessage::UpdateValueBool(u) => match components_get_mut(components, &u.label) {
                Some(c) => {
                    *c = Component::VarBool(Var { value: u.value });
                },
                None => {},
            },
            FromGuiLoopMessage::UpdateRangedValueUSize(u) => match components_get_mut(components, &u.label) {
                Some(c) => match c {
                    Component::RangedVarUSize(r) => {
                        r.value = u.value;
                    },
                    _ => {},
                },
                None => {},
            },
            FromGuiLoopMessage::UpdateRangedValueI32(u) => match components_get_mut(components, &u.label) {
                Some(c) => match c {
                    Component::RangedVarI32(r) => {
                        r.value = u.value;
                    },
                    _ => {},
                },
                None => {},
            },
            FromGuiLoopMessage::UpdateRangedValueI64(u) => match components_get_mut(components, &u.label) {
                Some(c) => match c {
                    Component::RangedVarI64(r) => {
                        r.value = u.value;
                    },
                    _ => {},
                },
                None => {},
            },
            FromGuiLoopMessage::UpdateRangedValueF32(u) => match components_get_mut(components, &u.label) {
                Some(c) => match c {
                    Component::RangedVarF32(r) => {
                        r.value = u.value;
                    },
                    _ => {},
                },
                None => {},
            },
            FromGuiLoopMessage::UpdateRangedValueF64(u) => match components_get_mut(components, &u.label) {
                Some(c) => match c {
                    Component::RangedVarF64(r) => {
                        r.value = u.value;
                    },
                    _ => {},
                },
                None => {},
            },
            FromGuiLoopMessage::UpdateButton(u) => match components_get_mut(components, &u.label) {
                Some(c) => {
                    *c = Component::Button(Button { pressed: true });
                },
                None => {},
            },
        }
    }

    /// Whether the mirror holds the slot that this message updates, of its kind.
    pub fn fits(&self, components: &LinkedHashMap<String, Component>) -> (r: bool)
        ensures
            r == mirror_step_ok(component_entries(*components), *self),
    {
        match self {
            FromGuiLoopMessage::UpdateEnumStringRepr(u) => {
                matches!(components_get(components, &u.label), Some(Component::EnumStringRepr(_)))
            },
            FromGuiLoopMessage::UpdateValueBool(u) => {
                matches!(components_get(components, &u.label), Some(Component::VarBool(_)))
            },
            FromGuiLoopMessage::UpdateRangedValueUSize(u) => {
                matches!(components_get(components, &u.label), Some(Component::RangedVarUSize(_)))
            },
            FromGuiLoopMessage::UpdateRangedValueI32(u) => {
                matches!(components_get(components, &u.label), Some(Component::RangedVarI32(_)))
            },
            FromGuiLoopMessage::UpdateRangedValueI64(u) => {
                matches!(components_get(components, &u.label), Some(Component::RangedVarI64(_)))
            },
            FromGuiLoopMessage::UpdateRangedValueF32(u) => {
                matches!(components_get(components, &u.label), Some(Component::RangedVarF32(_)))
            },
            FromGuiLoopMessage::UpdateRangedValueF64(u) => {
                matches!(components_get(components, &u.label), Some(Component::RangedVarF64(_)))
            },
            FromGuiLoopMessage::UpdateButton(u) => {
                matches!(components_get(components, &u.label), Some(Component::Button(_)))
            },
        }
    }
}

/// The control side's state: the mirror of every component and the messages not yet
/// handed to the presentation side, oldest first.
pub struct Shared {
    /// Mirror of the components, by label.
    pub components: LinkedHashMap<String, Component>,
    /// Messages bound for the presentation side, oldest first.
    pub message_queue: Vec<ToGuiLoopMessage>,
}

/// The control side's handle through which components and widgets are added and kept in
/// step with the presentation side.
pub struct Manager {
    /// Mirror and outbound queue.
    pub shared: Shared,
}

proof fn lemma_prefix_ok(c: Seq<(Seq<char>, Component)>, ms: Seq<FromGuiLoopMessage>, n: int)
    requires
        0 <= n <= ms.len(),
        forall|j: int| 0 <= j < n ==> mirror_step_ok(#[trigger] mirror_steps(c, ms.take(j)), ms[j]),
    ensures
        mirror_steps_ok(c, ms.take(n)),
{
    assert forall|j: int| 0 <= j < ms.take(n).len() implies mirror_step_ok(
        #[trigger] mirror_steps(c, ms.take(n).take(j)),
        ms.take(n)[j],
    ) by {
        assert(ms.take(n).take(j) =~= ms.take(j));
        assert(mirror_step_ok(mirror_steps(c, ms.take(j)), ms[j]));
    }
}

/// A copy of `v`, element by element.
fn clone_strings(v: &Vec<String>) -> (r: Vec<String>)
    ensures
        r@ == v@,
{
    let mut r: Vec<String> = Vec::new();
    let mut i: usize = 0;
    while i < v.len()
        invariant
            0 <= i <= v@.len(),
            r@ == v@.take(i as int),
        decreases v@.len() - i,
    {
        r.push(v[i].clone());
        i = i + 1;
        assert(r@ =~= v@.take(i as int));
    }
    assert(v@.take(v@.len() as int) =~= v@);
    r
}

impl Manager {
    /// The mirror, in insertion order.
    pub open spec fn mirror(&self) -> Seq<(Seq<char>, Component)> {
        component_entries(self.shared.components)
    }

    /// The messages not yet handed out, oldest first.
    pub open spec fn queue(&self) -> Seq<ToGuiLoopMessage> {
        self.shared.message_queue@
    }

    /// The mirror slot under `label`.
    pub open spec fn slot(&self, label: Seq<char>) -> Option<Component> {
        lookup(self.mirror(), label)
    }

    /// A manager with an empty mirror and an empty queue.
    pub fn new() -> (r: Manager)
        ensures
            r.mirror() == Seq::<(Seq<char>, Component)>::empty(),
            r.queue() == Seq::<ToGuiLoopMessage>::empty(),
    {
        Manager { shared: Shared { components: components_new(), message_queue: Vec::new() } }
    }

    /// Records `c` under `label` in the mirror and queues `m`.
    fn add_component(&mut self, label: String, c: Component, m: ToGuiLoopMessage)
        ensures
            final(self).mirror() == insert_entry(old(self).mirror(), label@, c),
            final(self).queue() == old(self).queue().push(m),
    {
        self.shared.message_queue.push(m);
        components_insert(&mut self.shared.components, label, c);
    }

    /// Adds a button to the side panel.
    pub fn add_button(&mut self, label: String) -> (r: UiButton)
        ensures
            final(self).mirror() == insert_entry(old(self).mirror(), label@, Component::Button(Button { pressed: false })),
            final(self).queue() == old(self).queue().push(ToGuiLoopMessage::AddButton(AddButton { label })),
            r.label == label,
    {
        let m = ToGuiLoopMessage::AddButton(AddButton { label: label.clone() });
        self.add_component(label.clone(), Component::Button(Button { pressed: false }), m);
        UiButton { label }
    }

    /// Adds a boolean as a checkbox to the side panel.
    pub fn add_bool(&mut self, label: String, value: bool) -> (r: UiVar<bool>)
        ensures
            final(self).mirror() == insert_entry(old(self).mirror(), label@, Component::VarBool(Var { value })),
            final(self).queue() == old(self).queue().push(ToGuiLoopMessage::AddVarBool(AddVar { label, value })),
            r.label == label,
            r.cache == value,
    {
        let m = ToGuiLoopMessage::AddVarBool(AddVar { label: label.clone(), value });
        self.add_component(label.clone(), Component::VarBool(Var { value }), m);
        UiVar { label, cache: value }
    }

    /// Adds a number as a read-only text box to the side panel.
    pub fn add_number<T: Number>(&mut self, label: String, value: T) -> (r: UiVar<T>)
        ensures
            final(self).mirror() == insert_entry(old(self).mirror(), label@, T::var_component(value)),
            final(self).queue() == old(self).queue().push(T::add_var_msg(label, value)),
            r.label == label,
            r.cache == value,
    {
        let m = value.add_var_message(label.clone());
        self.add_component(label.clone(), value.to_var_component(), m);
        UiVar { label, cache: value }
    }

    /// Adds a number with bounds `[min, max]` as a slider to the side panel.
    pub fn add_ranged_value<T: Number>(&mut self, label: String, value: T, min_max: (T, T)) -> (r: UiRangedVar<T>)
        ensures
            final(self).mirror() == insert_entry(
                old(self).mirror(),
                label@,
                T::ranged_component(RangedVar { value, min: min_max.0, max: min_max.1 }),
            ),
            final(self).queue() == old(self).queue().push(
                T::add_ranged_msg(label, RangedVar { value, min: min_max.0, max: min_max.1 }),
            ),
            r.label == label,
            r.cache == value,
    {
        let m = value.add_ranged_var_message(label.clone(), min_max);
        let c = T::to_ranged_component(RangedVar { value, min: min_max.0, max: min_max.1 });
        self.add_component(label.clone(), c, m);
        UiRangedVar { label, cache: value }
    }

    /// Adds an enum, given as its current value and all its values, as a combo box to the
    /// side panel.
    pub fn add_enum(&mut self, label: String, value: String, values: Vec<String>) -> (r: UiEnum)
        ensures
            final(self).mirror() == insert_entry(
                old(self).mirror(),
                label@,
                Component::EnumStringRepr(EnumStringRepr { value, values }),
            ),
            final(self).queue().len() == old(self).queue().len() + 1,
            final(self).queue().drop_last() == old(self).queue(),
            final(self).queue().last() matches ToGuiLoopMessage::AddEnumStringRepr(a) && a.label == label
                && a.value == value && a.values@ == values@,
            r.label == label,
            r.cache == value,
    {
        let m = ToGuiLoopMessage::AddEnumStringRepr(
            AddEnumStringRepr { label: label.clone(), value: value.clone(), values: clone_strings(&values) },
        );
        self.add_component(label.clone(), Component::EnumStringRepr(EnumStringRepr { value: value.clone(), values }), m);
        UiEnum { label, cache: value }
    }

    /// Adds a 2d widget showing `image` to the main panel.
    pub fn add_widget2(&mut self, label: String, image: ImageRgba8) -> (r: UiWidget2)
        ensures
            final(self).mirror() == old(self).mirror(),
            final(self).queue() == old(self).queue().push(ToGuiLoopMessage::AddWidget2(AddWidget2 { label, image })),
            r.label == label,
    {
        self.shared.message_queue.push(ToGuiLoopMessage::AddWidget2(AddWidget2 { label: label.clone(), image }));
        UiWidget2 { label }
    }

    /// Adds an empty 3d widget to the main panel.
    pub fn add_widget3(&mut self, label: String) -> (r: UiWidget3)
        ensures
            final(self).mirror() == old(self).mirror(),
            final(self).queue() == old(self).queue().push(ToGuiLoopMessage::AddWidget3(AddWidget3 { label })),
            r.label == label,
    {
        self.shared.message_queue.push(ToGuiLoopMessage::AddWidget3(AddWidget3 { label: label.clone() }));
        UiWidget3 { label }
    }

    /// Queues the removal of component `label` from the side panel.
    pub fn delete_component(&mut self, label: String)
        ensures
            final(self).mirror() == old(self).mirror(),
            final(self).queue() == old(self).queue().push(ToGuiLoopMessage::DeleteComponent(DeleteComponent { label })),
    {
        self.shared.message_queue.push(ToGuiLoopMessage::DeleteComponent(DeleteComponent { label }));
    }

    /// Hands out every queued message, oldest first, and empties the queue.
    pub fn take_outbound(&mut self) -> (r: Vec<ToGuiLoopMessage>)
        ensures
            r@ == old(self).queue(),
            final(self).queue() == Seq::<ToGuiLoopMessage>::empty(),
            final(self).mirror() == old(self).mirror(),
    {
        let mut out: Vec<ToGuiLoopMessage> = Vec::new();
        std::mem::swap(&mut out, &mut self.shared.message_queue);
        out
    }

    /// Applies the messages from the presentation side in order. Stops at the first one
    /// whose slot the mirror lacks, and returns its index: the two sides are out of step.
    pub fn apply_inbound(&mut self, msgs: Vec<FromGuiLoopMessage>) -> (r: Result<(), usize>)
        ensures
            final(self).queue() == old(self).queue(),
            match r {
                Ok(()) => {
                    &&& mirror_steps_ok(old(self).mirror(), msgs@)
                    &&& final(self).mirror() == mirror_steps(old(self).mirror(), msgs@)
                },
                Err(i) => {
                    &&& i < msgs@.len()
                    &&& mirror_steps_ok(old(self).mirror(), msgs@.take(i as int))
                    &&& !mirror_step_ok(mirror_steps(old(self).mirror(), msgs@.take(i as int)), msgs@[i as int])
                    &&& final(self).mirror() == mirror_steps(old(self).mirror(), msgs@.take(i as int))
                },
            },
    {
        let ghost c0 = self.mirror();
        let mut i: usize = 0;
        while i < msgs.len()
            invariant
                0 <= i <= msgs@.len(),
                self.queue() == old(self).queue(),
                c0 == old(self).mirror(),
                forall|j: int| 0 <= j < i ==> mirror_step_ok(#[trigger] mirror_steps(c0, msgs@.take(j)), msgs@[j]),
                self.mirror() == mirror_steps(c0, msgs@.take(i as int)),
            decreases msgs@.len() - i,
        {
            if !msgs[i].fits(&self.shared.components) {
                proof {
                    lemma_prefix_ok(c0, msgs@, i as int);
                }
                return Err(i);
            }
            msgs[i].update(&mut self.shared.components);
            assert(msgs@.take(i + 1).drop_last() =~= msgs@.take(i as int));
            i = i + 1;
        }
        proof {
            lemma_prefix_ok(c0, msgs@, msgs@.len() as int);
            assert(msgs@.take(msgs@.len() as int) =~= msgs@);
        }
        Ok(())
    }
}

/// A button of the side panel.
pub struct UiButton {
    /// Label of the button.
    pub label: String,
}

impl UiButton {
    /// Whether the button was pressed since the last call; clears the press.
    pub fn was_pressed(&self, manager: &mut Manager) -> (r: bool)
        requires
            old(manager).slot(self.label@) matches Some(Component::Button(_)),
        ensures
            r == (old(manager).slot(self.label@) == Some(Component::Button(Button { pressed: true }))),
            final(manager).queue() == old(manager).queue(),
            final(manager).mirror() == (if r {
                set_value(old(manager).mirror(), self.label@, Component::Button(Button { pressed: false }))
            } else {
                old(manager).mirror()
            }),
    {
        let pressed = match components_get(&manager.shared.components, &self.label) {
            Some(Component::Button(b)) => b.pressed,
            _ => false,
        };
        if pressed {
            match components_get_mut(&mut manager.shared.components, &self.label) {
                Some(c) => {
                    *c = Component::Button(Button { pressed: false });
                },
                None => {},
            }
        }
        pressed
    }
}

/// Edge-triggered read: the current value when it differs from the one last seen, with
/// the value seen after the read.
pub open spec fn edge<T>(cache: T, current: T) -> (T, Option<T>) {
    if current != cache {
        (current, Some(current))
    } else {
        (cache, None)
    }
}

/// A checkbox (`UiVar<bool>`) or a read-only number of the side panel, with the value
/// this handle saw last.
pub struct UiVar<T> {
    /// Label of the component.
    pub label: String,
    /// The value seen last.
    pub cache: T,
}

impl UiVar<bool> {
    /// The checkbox's value under `label`, if the mirror holds one.
    pub open spec fn current(manager: &Manager, label: Seq<char>) -> Option<bool> {
        match manager.slot(label) {
            Some(Component::VarBool(v)) => Some(v.value),
            _ => None,
        }
    }

    /// Reads the current value.
    pub fn get_value(&mut self, manager: &Manager) -> (r: bool)
        requires
            Self::current(manager, old(self).label@) is Some,
        ensures
            Some(r) == Self::current(manager, old(self).label@),
            final(self).cache == r,
            final(self).label == old(self).label,
    {
        let value = match components_get(&manager.shared.components, &self.label) {
            Some(Component::VarBool(v)) => v.value,
            _ => false,
        };
        self.cache = value;
        value
    }

    /// The current value if it differs from the one this handle saw last.
    pub fn get_new_value(&mut self, manager: &Manager) -> (r: Option<bool>)
        requires
            Self::current(manager, old(self).label@) is Some,
        ensures
            (final(self).cache, r) == edge(old(self).cache, Self::current(manager, old(self).label@)->0),
            final(self).label == old(self).label,
    {
        let value = match components_get(&manager.shared.components, &self.label) {
            Some(Component::VarBool(v)) => v.value,
            _ => false,
        };
        if value != self.cache {
            self.cache = value;
            return Some(value);
        }
        None
    }
}

impl<T: Number> UiVar<T> {
    /// The number under `label`, if the mirror holds one of this kind.
    pub open spec fn current_number(manager: &Manager, label: Seq<char>) -> Option<T> {
        match manager.slot(label) {
            Some(c) => T::var_of(c),
            None => None,
        }
    }

    /// Reads the current number.
    pub fn get_value(&mut self, manager: &Manager) -> (r: T)
        requires
            Self::current_number(manager, old(self).label@) is Some,
        ensures
            Some(r) == Self::current_number(manager, old(self).label@),
            final(self).cache == r,
            final(self).label == old(self).label,
    {
        let value = match components_get(&manager.shared.components, &self.label) {
            Some(c) => T::read_var(c),
            None => None,
        };
        match value {
            Some(v) => {
                self.cache = v;
                v
            },
            None => self.cache,
        }
    }

    /// The current number if it differs from the one this handle saw last.
    pub fn get_new_value(&mut self, manager: &Manager) -> (r: Option<T>)
        requires
            Self::current_number(manager, old(self).label@) is Some,
        ensures
            (final(self).cache, r) == edge(old(self).cache, Self::current_number(manager, old(self).label@)->0),
            final(self).label == old(self).label,
    {
        let value = match components_get(&manager.shared.components, &self.label) {
            Some(c) => T::read_var(c),
            None => None,
        };
        match value {
            Some(v) => {
                if !v.equals(self.cache) {
                    self.cache = v;
                    return Some(v);
                }
                None
            },
            None => None,
        }
    }
}

/// A slider of the side panel, with the value this handle saw last.
pub struct UiRangedVar<T> {
    /// Label of the slider.
    pub label: String,
    /// The value seen last.
    pub cache: T,
}

impl<T: Number> UiRangedVar<T> {
    /// The slider under `label`, if the mirror holds one of this kind.
    pub open spec fn current(manager: &Manager, label: Seq<char>) -> Option<RangedVar<T>> {
        match manager.slot(label) {
            Some(c) => T::ranged_of(c),
            None => None,
        }
    }

    /// Reads the current value.
    pub fn get_value(&mut self, manager: &Manager) -> (r: T)
        requires
            Self::current(manager, old(self).label@) is Some,
        ensures
            r == Self::current(manager, old(self).label@)->0.value,
            final(self).cache == r,
            final(self).label == old(self).label,
    {
        let value = match components_get(&manager.shared.components, &self.label) {
            Some(c) => T::read_ranged(c),
            None => None,
        };
        match value {
            Some(v) => {
                self.cache = v.value;
                v.value
            },
            None => self.cache,
        }
    }

    /// The current value if it differs from the one this handle saw last.
    pub fn get_new_value(&mut self, manager: &Manager) -> (r: Option<T>)
        requires
            Self::current(manager, old(self).label@) is Some,
        ensures
            (final(self).cache, r) == edge(old(self).cache, Self::current(manager, old(self).label@)->0.value),
            final(self).label == old(self).label,
    {
        let value = match components_get(&manager.shared.components, &self.label) {
            Some(c) => T::read_ranged(c),
            None => None,
        };
        match value {
            Some(v) => {
                if !v.value.equals(self.cache) {
                    self.cache = v.value;
                    return Some(v.value);
                }
                None
            },
            None => None,
        }
    }
}

/// A combo box of the side panel, read as the string form of the enum's value, with the
/// value this handle saw last.
pub struct UiEnum {
    /// Label of the combo box.
    pub label: String,
    /// The value seen last.
    pub cache: String,
}

impl UiEnum {
    /// The combo box's value under `label`, if the mirror holds one.
    pub open spec fn current(manager: &Manager, label: Seq<char>) -> Option<String> {
        match manager.slot(label) {
            Some(Component::EnumStringRepr(e)) => Some(e.value),
            _ => None,
        }
    }

    /// Reads the current value.
    pub fn get_value(&mut self, manager: &Manager) -> (r: String)
        requires
            Self::current(manager, old(self).label@) is Some,
        ensures
            Some(r) == Self::current(manager, old(self).label@),
            final(self).cache == r,
            final(self).label == old(self).label,
    {
        let value = match components_get(&manager.shared.components, &self.label) {
            Some(Component::EnumStringRepr(e)) => e.value.clone(),
            _ => self.cache.clone(),
        };
        self.cache = value.clone();
        value
    }

    /// The current value if it differs from the one this handle saw last.
    pub fn get_new_value(&mut self, manager: &Manager) -> (r: Option<String>)
        requires
            Self::current(manager, old(self).label@) is Some,
        ensures
            final(self).cache@ == Self::current(manager, old(self).label@)->0@,
            r is Some <==> Self::current(manager, old(self).label@)->0@ != old(self).cache@,
            r is Some ==> r == Self::current(manager, old(self).label@),
            final(self).label == old(self).label,
    {
        let value = match components_get(&manager.shared.components, &self.label) {
            Some(Component::EnumStringRepr(e)) => e.value.clone(),
            _ => self.cache.clone(),
        };
        if value != self.cache {
            self.cache = value.clone();
            return Some(value);
        }
        None
    }
}

/// A 2d widget of the main panel.
pub struct UiWidget2 {
    /// Label of the widget.
    pub label: String,
}

/// A 3d widget of the main panel.
pub struct UiWidget3 {
    /// Label of the widget.
    pub label: String,
}

impl UiWidget3 {
    /// Places `entity` under `label` at the identity pose, replacing an entity of that name.
    pub fn place_entity(&self, manager: &mut Manager, label: String, entity: Entity3)
        ensures
            final(manager).mirror() == old(manager).mirror(),
            final(manager).queue() == old(manager).queue().push(
                ToGuiLoopMessage::PlaceEntity3(
                    PlaceEntity3 {
                        widget_label: self.label,
                        named_entity: NamedEntity3 { label, entity, scene_pose_entity: Pose::spec_identity() },
                    },
                ),
            ),
    {
        self.place_entity_at(manager, label, entity, Pose::identity());
    }

    /// Places `entity` under `label` at pose `scene_pose_entity`, replacing an entity of
    /// that name.
    pub fn place_entity_at(&self, manager: &mut Manager, label: String, entity: Entity3, scene_pose_entity: Pose)
        ensures
            final(manager).mirror() == old(manager).mirror(),
            final(manager).queue() == old(manager).queue().push(
                ToGuiLoopMessage::PlaceEntity3(
                    PlaceEntity3 {
                        widget_label: self.label,
                        named_entity: NamedEntity3 { label, entity, scene_pose_entity },
                    },
                ),
            ),
    {
        manager.shared.message_queue.push(
            ToGuiLoopMessage::PlaceEntity3(
                PlaceEntity3 {
                    widget_label: self.label.clone(),
                    named_entity: NamedEntity3 { label, entity, scene_pose_entity },
                },
            ),
        );
    }

    /// Sets the pose of entity `label`; on the presentation side this does nothing if
    /// there is no such entity.
    pub fn update_scene_pose_entity(&self, manager: &mut Manager, label: String, scene_pose_entity: Pose)
        ensures
            final(manager).mirror() == old(manager).mirror(),
            final(manager).queue() == old(manager).queue().push(
                ToGuiLoopMessage::UpdateScenePoseEntity3(
                    UpdateScenePoseEntity3 { widget_label: self.label, entity_label: label, scene_pose_entity },
                ),
            ),
    {
        manager.shared.message_queue.push(
            ToGuiLoopMessage::UpdateScenePoseEntity3(
                UpdateScenePoseEntity3 { widget_label: self.label.clone(), entity_label: label, scene_pose_entity },
            ),
        );
    }
}

} // verus!
