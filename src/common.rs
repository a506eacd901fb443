//! The component model and the two message families exchanged between the control
//! side ([`crate::manager::Manager`]) and the presentation side ([`crate::gui::GuiData`]).

use vstd::prelude::*;

use crate::entities::{NamedEntity3, Pose};
use crate::label_map::{lookup, set_value};
use crate::manager::{mirror_step, mirror_step_ok};

verus! {

/// A single-precision number, held as its IEEE-754 bit pattern.
#[derive(Clone, Copy, Debug, PartialEq, Eq, Structural)]
pub struct F32Bits(pub u32);

/// A double-precision number, held as its IEEE-754 bit pattern.
#[derive(Clone, Copy, Debug, PartialEq, Eq, Structural)]
pub struct F64Bits(pub u64);

/// The place of a bit pattern in the IEEE-754 total order, as an integer: patterns with
/// the sign bit `sign` set lie below all others, the larger their magnitude the lower.
pub open spec fn total_order_key(bits: int, sign: int) -> int {
    if bits >= sign {
        -(bits - sign) - 1
    } else {
        bits
    }
}

fn f32_key(x: F32Bits) -> (r: i64)
    ensures
        r as int == total_order_key(x.0 as int, 0x8000_0000),
{
    if x.0 >= 0x8000_0000u32 {
        -((x.0 - 0x8000_0000u32) as i64) - 1
    } else {
        x.0 as i64
    }
}

fn f64_key(x: F64Bits) -> (r: i128)
    ensures
        r as int == total_order_key(x.0 as int, 0x8000_0000_0000_0000),
{
    if x.0 >= 0x8000_0000_0000_0000u64 {
        -((x.0 - 0x8000_0000_0000_0000u64) as i128) - 1
    } else {
        x.0 as i128
    }
}

/// String representation of an enum: its current value and all its possible values.
#[derive(Clone, Debug, PartialEq)]
pub struct EnumStringRepr {
    /// String representation of the current value.
    pub value: String,
    /// All possible values, in order.
    pub values: Vec<String>,
}

/// A checkbox (`bool`) or a read-only number.
#[derive(Clone, Copy, Debug, PartialEq)]
pub struct Var<T> {
    /// Current value.
    pub value: T,
}

/// A button.
#[derive(Clone, Copy, Debug, PartialEq)]
pub struct Button {
    /// True if pressed and not yet observed.
    pub pressed: bool,
}

/// A number with bounds `[min, max]`, shown as a slider.
#[derive(Clone, Copy, Debug, PartialEq)]
pub struct RangedVar<T> {
    /// Current value.
    pub value: T,
    /// Lower bound.
    pub min: T,
    /// Upper bound.
    pub max: T,
}

/// A named side-panel element, one variant per kind.
#[derive(Clone, Debug, PartialEq)]
pub enum Component {
    /// Enum combo box.
    EnumStringRepr(EnumStringRepr),
    /// Button.
    Button(Button),
    /// Checkbox.
    VarBool(Var<bool>),
    /// Read-only `usize`.
    VarUSize(Var<usize>),
    /// Read-only `i32`.
    VarI32(Var<i32>),
    /// Read-only `i64`.
    VarI64(Var<i64>),
    /// `usize` slider.
    RangedVarUSize(RangedVar<usize>),
    /// `i32` slider.
    RangedVarI32(RangedVar<i32>),
    /// `i64` slider.
    RangedVarI64(RangedVar<i64>),
    /// Read-only single-precision number.
    VarF32(Var<F32Bits>),
    /// Read-only double-precision number.
    VarF64(Var<F64Bits>),
    /// Single-precision slider.
    RangedVarF32(RangedVar<F32Bits>),
    /// Double-precision slider.
    RangedVarF64(RangedVar<F64Bits>),
}

/// RGBA image with one byte per channel.
#[derive(Clone, Debug, PartialEq)]
pub struct ImageRgba8 {
    /// Raw bytes, row by row.
    pub bytes: Vec<u8>,
    /// Image width.
    pub width: u32,
    /// Image height.
    pub height: u32,
}

/// Adds an enum (as string representation) as combo box.
#[derive(Clone, Debug, PartialEq)]
pub struct AddEnumStringRepr {
    /// The name of the enum.
    pub label: String,
    /// Initial value.
    pub value: String,
    /// List of possible values.
    pub values: Vec<String>,
}

/// Adds a button.
#[derive(Clone, Debug, PartialEq)]
pub struct AddButton {
    /// The name of the button.
    pub label: String,
}

/// Adds a checkbox or a read-only number.
#[derive(Clone, Debug, PartialEq)]
pub struct AddVar<T> {
    /// The name of the variable.
    pub label: String,
    /// The initial value.
    pub value: T,
}

/// Adds a number as a slider.
#[derive(Clone, Debug, PartialEq)]
pub struct AddRangedVar<T> {
    /// The name of the variable.
    pub label: String,
    /// Initial value.
    pub value: T,
    /// Lower bound.
    pub min: T,
    /// Upper bound.
    pub max: T,
}

/// Adds a 2d widget showing an image.
#[derive(Clone, Debug, PartialEq)]
pub struct AddWidget2 {
    /// Name of the widget.
    pub label: String,
    /// Image to show in the widget.
    pub image: ImageRgba8,
}

/// Adds an empty 3d widget.
#[derive(Clone, Debug, PartialEq)]
pub struct AddWidget3 {
    /// Name of the widget.
    pub label: String,
}

/// Places an entity into a 3d widget, replacing one of the same name.
#[derive(Clone, Debug, PartialEq)]
pub struct PlaceEntity3 {
    /// Name of the widget.
    pub widget_label: String,
    /// The entity.
    pub named_entity: NamedEntity3,
}

/// Updates the pose of an entity of a 3d widget; no-op if there is no such entity.
#[derive(Clone, Debug, PartialEq)]
pub struct UpdateScenePoseEntity3 {
    /// Name of the widget.
    pub widget_label: String,
    /// Name of the entity.
    pub entity_label: String,
    /// Pose of the entity in the scene.
    pub scene_pose_entity: Pose,
}

/// Deletes a component; no-op if there is no such component.
#[derive(Clone, Debug, PartialEq)]
pub struct DeleteComponent {
    /// Name of the component.
    pub label: String,
}

/// Message from the control side to the presentation side.
#[derive(Clone, Debug, PartialEq)]
pub enum ToGuiLoopMessage {
    /// Enum combo box.
    AddEnumStringRepr(AddEnumStringRepr),
    /// Button.
    AddButton(AddButton),
    /// Checkbox.
    AddVarBool(AddVar<bool>),
    /// Read-only `usize`.
    AddVarUSize(AddVar<usize>),
    /// Read-only `i32`.
    AddVarI32(AddVar<i32>),
    /// Read-only `i64`.
    AddVarI64(AddVar<i64>),
    /// `usize` slider.
    AddRangedVarUSize(AddRangedVar<usize>),
    /// `i32` slider.
    AddRangedVarI32(AddRangedVar<i32>),
    /// `i64` slider.
    AddRangedVarI64(AddRangedVar<i64>),
    /// Read-only single-precision number.
    AddVarF32(AddVar<F32Bits>),
    /// Read-only double-precision number.
    AddVarF64(AddVar<F64Bits>),
    /// Single-precision slider.
    AddRangedVarF32(AddRangedVar<F32Bits>),
    /// Double-precision slider.
    AddRangedVarF64(AddRangedVar<F64Bits>),
    /// 2d widget.
    AddWidget2(AddWidget2),
    /// 3d widget.
    AddWidget3(AddWidget3),
    /// Place a 3d entity.
    PlaceEntity3(PlaceEntity3),
    /// Delete a component.
    DeleteComponent(DeleteComponent),
    /// Update the pose of a 3d entity.
    UpdateScenePoseEntity3(UpdateScenePoseEntity3),
}

/// New value of an enum combo box.
#[derive(Clone, Debug, PartialEq)]
pub struct UpdateEnumStringRepr {
    /// The name.
    pub label: String,
    /// The new value.
    pub value: String,
}

/// New value of a checkbox.
#[derive(Clone, Debug, PartialEq)]
pub struct UpdateValue<T> {
    /// The name.
    pub label: String,
    /// The new value.
    pub value: T,
}

/// New value of a slider.
#[derive(Clone, Debug, PartialEq)]
pub struct UpdateRangedValue<T> {
    /// The name.
    pub label: String,
    /// The new value.
    pub value: T,
}

/// A button was pressed.
#[derive(Clone, Debug, PartialEq)]
pub struct UpdateButton {
    /// The name.
    pub label: String,
}

/// Message from the presentation side to the control side.
#[derive(Clone, Debug, PartialEq)]
pub enum FromGuiLoopMessage {
    /// Enum combo box update.
    UpdateEnumStringRepr(UpdateEnumStringRepr),
    /// Checkbox update.
    UpdateValueBool(UpdateValue<bool>),
    /// `usize` slider update.
    UpdateRangedValueUSize(UpdateRangedValue<usize>),
    /// `i32` slider update.
    UpdateRangedValueI32(UpdateRangedValue<i32>),
    /// `i64` slider update.
    UpdateRangedValueI64(UpdateRangedValue<i64>),
    /// Single-precision slider update.
    UpdateRangedValueF32(UpdateRangedValue<F32Bits>),
    /// Double-precision slider update.
    UpdateRangedValueF64(UpdateRangedValue<F64Bits>),
    /// Button press.
    UpdateButton(UpdateButton),
}

/// A numeric kind that components can hold: `usize`, `i32` or `i64`.
pub trait Number: Copy + Sized {
    /// The number as a mathematical integer.
    spec fn spec_int(self) -> int;

    /// The read-only component holding `v`.
    spec fn var_component(v: Self) -> Component;

    /// The slider component holding `r`.
    spec fn ranged_component(r: RangedVar<Self>) -> Component;

    /// The value of `c` if it is a read-only component of this kind.
    spec fn var_of(c: Component) -> Option<Self>;

    /// The state of `c` if it is a slider of this kind.
    spec fn ranged_of(c: Component) -> Option<RangedVar<Self>>;

    /// The message that adds a read-only component of this kind.
    spec fn add_var_msg(label: String, v: Self) -> ToGuiLoopMessage;

    /// The message that adds a slider of this kind.
    spec fn add_ranged_msg(label: String, r: RangedVar<Self>) -> ToGuiLoopMessage;

    /// The message that reports a new slider value of this kind.
    spec fn update_ranged_msg(label: String, v: Self) -> FromGuiLoopMessage;

    /// Each kind reads back what it stored, and equal integers are equal numbers.
    proof fn lemma_number_kind(v: Self, w: Self, r: RangedVar<Self>)
        ensures
            Self::var_of(Self::var_component(v)) == Some(v),
            Self::ranged_of(Self::ranged_component(r)) == Some(r),
            Self::var_of(Self::ranged_component(r)) is None,
            Self::ranged_of(Self::var_component(v)) is None,
            (v.spec_int() == w.spec_int()) == (v == w),
    ;

    /// A slider update of this kind finds its slider and sets only its value.
    proof fn lemma_update_ranged(c: Seq<(Seq<char>, Component)>, label: String, r: RangedVar<Self>, v: Self)
        requires
            lookup(c, label@) == Some(Self::ranged_component(r)),
        ensures
            mirror_step_ok(c, Self::update_ranged_msg(label, v)),
            mirror_step(c, Self::update_ranged_msg(label, v)) == set_value(
                c,
                label@,
                Self::ranged_component(RangedVar { value: v, min: r.min, max: r.max }),
            ),
    ;

    /// AddVar message.
    fn add_var_message(self, label: String) -> (r: ToGuiLoopMessage)
        ensures
            r == Self::add_var_msg(label, self),
    ;

    /// AddRangedVar message.
    fn add_ranged_var_message(self, label: String, min_max: (Self, Self)) -> (r: ToGuiLoopMessage)
        ensures
            r == Self::add_ranged_msg(label, RangedVar { value: self, min: min_max.0, max: min_max.1 }),
    ;

    /// UpdateRangedValue message.
    fn update_range_value_message(self, label: String) -> (r: FromGuiLoopMessage)
        ensures
            r == Self::update_ranged_msg(label, self),
    ;

    /// The read-only component holding `self`.
    fn to_var_component(self) -> (r: Component)
        ensures
            r == Self::var_component(self),
    ;

    /// The slider component holding `r`.
    fn to_ranged_component(r: RangedVar<Self>) -> (c: Component)
        ensures
            c == Self::ranged_component(r),
    ;

    /// The value of `c` if it is a read-only component of this kind.
    fn read_var(c: &Component) -> (r: Option<Self>)
        ensures
            r == Self::var_of(*c),
    ;

    /// The state of `c` if it is a slider of this kind.
    fn read_ranged(c: &Component) -> (r: Option<RangedVar<Self>>)
        ensures
            r == Self::ranged_of(*c),
    ;

    /// Whether two numbers are equal.
    fn equals(self, other: Self) -> (r: bool)
        ensures
            r == (self == other),
    ;

    /// `self` clamped into `[min, max]`.
    fn clamp_into(self, min_max: (Self, Self)) -> (r: Self)
        ensures
            r == (if self.spec_int() < min_max.0.spec_int() {
                min_max.0
            } else if self.spec_int() > min_max.1.spec_int() {
                min_max.1
            } else {
                self
            }),
    ;
}

impl Number for usize {
    open spec fn spec_int(self) -> int {
        self as int
    }

    open spec fn var_component(v: usize) -> Component {
        Component::VarUSize(Var { value: v })
    }

    open spec fn ranged_component(r: RangedVar<usize>) -> Component {
        Component::RangedVarUSize(r)
    }

    open spec fn var_of(c: Component) -> Option<usize> {
        match c {
            Component::VarUSize(x) => Some(x.value),
            _ => None,
        }
    }

    open spec fn ranged_of(c: Component) -> Option<RangedVar<usize>> {
        match c {
            Component::RangedVarUSize(x) => Some(x),
            _ => None,
        }
    }

    open spec fn add_var_msg(label: String, v: usize) -> ToGuiLoopMessage {
        ToGuiLoopMessage::AddVarUSize(AddVar { label, value: v })
    }

    open spec fn add_ranged_msg(label: String, r: RangedVar<usize>) -> ToGuiLoopMessage {
        ToGuiLoopMessage::AddRangedVarUSize(AddRangedVar { label, value: r.value, min: r.min, max: r.max })
    }

    open spec fn update_ranged_msg(label: String, v: usize) -> FromGuiLoopMessage {
        FromGuiLoopMessage::UpdateRangedValueUSize(UpdateRangedValue { label, value: v })
    }

    proof fn lemma_number_kind(v: usize, w: usize, r: RangedVar<usize>) {
    }

    proof fn lemma_update_ranged(c: Seq<(Seq<char>, Component)>, label: String, r: RangedVar<usize>, v: usize) {
    }

    fn add_var_message(self, label: String) -> (r: ToGuiLoopMessage) {
        ToGuiLoopMessage::AddVarUSize(AddVar { label, value: self })
    }

    fn add_ranged_var_message(self, label: String, min_max: (usize, usize)) -> (r: ToGuiLoopMessage) {
        ToGuiLoopMessage::AddRangedVarUSize(AddRangedVar { label, value: self, min: min_max.0, max: min_max.1 })
    }

    fn update_range_value_message(self, label: String) -> (r: FromGuiLoopMessage) {
        FromGuiLoopMessage::UpdateRangedValueUSize(UpdateRangedValue { label, value: self })
    }

    fn to_var_component(self) -> (r: Component) {
        Component::VarUSize(Var { value: self })
    }

    fn to_ranged_component(r: RangedVar<usize>) -> (c: Component) {
        Component::RangedVarUSize(r)
    }

    fn read_var(c: &Component) -> (r: Option<usize>) {
        match c {
            Component::VarUSize(x) => Some(x.value),
            _ => None,
        }
    }

    fn read_ranged(c: &Component) -> (r: Option<RangedVar<usize>>) {
        match c {
            Component::RangedVarUSize(x) => Some(*x),
            _ => None,
        }
    }

    fn equals(self, other: usize) -> (r: bool) {
        self == other
    }

    fn clamp_into(self, min_max: (usize, usize)) -> (r: usize) {
        if self < min_max.0 {
            min_max.0
        } else if self > min_max.1 {
            min_max.1
        } else {
            self
        }
    }
}

impl Number for i32 {
    open spec fn spec_int(self) -> int {
        self as int
    }

    open spec fn var_component(v: i32) -> Component {
        Component::VarI32(Var { value: v })
    }

    open spec fn ranged_component(r: RangedVar<i32>) -> Component {
        Component::RangedVarI32(r)
    }

    open spec fn var_of(c: Component) -> Option<i32> {
        match c {
            Component::VarI32(x) => Some(x.value),
            _ => None,
        }
    }

    open spec fn ranged_of(c: Component) -> Option<RangedVar<i32>> {
        match c {
            Component::RangedVarI32(x) => Some(x),
            _ => None,
        }
    }

    open spec fn add_var_msg(label: String, v: i32) -> ToGuiLoopMessage {
        ToGuiLoopMessage::AddVarI32(AddVar { label, value: v })
    }

    open spec fn add_ranged_msg(label: String, r: RangedVar<i32>) -> ToGuiLoopMessage {
        ToGuiLoopMessage::AddRangedVarI32(AddRangedVar { label, value: r.value, min: r.min, max: r.max })
    }

    open spec fn update_ranged_msg(label: String, v: i32) -> FromGuiLoopMessage {
        FromGuiLoopMessage::UpdateRangedValueI32(UpdateRangedValue { label, value: v })
    }

    proof fn lemma_number_kind(v: i32, w: i32, r: RangedVar<i32>) {
    }

    proof fn lemma_update_ranged(c: Seq<(Seq<char>, Component)>, label: String, r: RangedVar<i32>, v: i32) {
    }

    fn add_var_message(self, label: String) -> (r: ToGuiLoopMessage) {
        ToGuiLoopMessage::AddVarI32(AddVar { label, value: self })
    }

    fn add_ranged_var_message(self, label: String, min_max: (i32, i32)) -> (r: ToGuiLoopMessage) {
        ToGuiLoopMessage::AddRangedVarI32(AddRangedVar { label, value: self, min: min_max.0, max: min_max.1 })
    }

    fn update_range_value_message(self, label: String) -> (r: FromGuiLoopMessage) {
        FromGuiLoopMessage::UpdateRangedValueI32(UpdateRangedValue { label, value: self })
    }

    fn to_var_component(self) -> (r: Component) {
        Component::VarI32(Var { value: self })
    }

    fn to_ranged_component(r: RangedVar<i32>) -> (c: Component) {
        Component::RangedVarI32(r)
    }

    fn read_var(c: &Component) -> (r: Option<i32>) {
        match c {
            Component::VarI32(x) => Some(x.value),
            _ => None,
        }
    }

    fn read_ranged(c: &Component) -> (r: Option<RangedVar<i32>>) {
        match c {
            Component::RangedVarI32(x) => Some(*x),
            _ => None,
        }
    }

    fn equals(self, other: i32) -> (r: bool) {
        self == other
    }

    fn clamp_into(self, min_max: (i32, i32)) -> (r: i32) {
        if self < min_max.0 {
            min_max.0
        } else if self > min_max.1 {
            min_max.1
        } else {
            self
        }
    }
}

impl Number for i64 {
    open spec fn spec_int(self) -> int {
        self as int
    }

    open spec fn var_component(v: i64) -> Component {
        Component::VarI64(Var { value: v })
    }

    open spec fn ranged_component(r: RangedVar<i64>) -> Component {
        Component::RangedVarI64(r)
    }

    open spec fn var_of(c: Component) -> Option<i64> {
        match c {
            Component::VarI64(x) => Some(x.value),
            _ => None,
        }
    }

    open spec fn ranged_of(c: Component) -> Option<RangedVar<i64>> {
        match c {
            Component::RangedVarI64(x) => Some(x),
            _ => None,
        }
    }

    open spec fn add_var_msg(label: String, v: i64) -> ToGuiLoopMessage {
        ToGuiLoopMessage::AddVarI64(AddVar { label, value: v })
    }

    open spec fn add_ranged_msg(label: String, r: RangedVar<i64>) -> ToGuiLoopMessage {
        ToGuiLoopMessage::AddRangedVarI64(AddRangedVar { label, value: r.value, min: r.min, max: r.max })
    }

    open spec fn update_ranged_msg(label: String, v: i64) -> FromGuiLoopMessage {
        FromGuiLoopMessage::UpdateRangedValueI64(UpdateRangedValue { label, value: v })
    }

    proof fn lemma_number_kind(v: i64, w: i64, r: RangedVar<i64>) {
    }

    proof fn lemma_update_ranged(c: Seq<(Seq<char>, Component)>, label: String, r: RangedVar<i64>, v: i64) {
    }

    fn add_var_message(self, label: String) -> (r: ToGuiLoopMessage) {
        ToGuiLoopMessage::AddVarI64(AddVar { label, value: self })
    }

    fn add_ranged_var_message(self, label: String, min_max: (i64, i64)) -> (r: ToGuiLoopMessage) {
        ToGuiLoopMessage::AddRangedVarI64(AddRangedVar { label, value: self, min: min_max.0, max: min_max.1 })
    }

    fn update_range_value_message(self, label: String) -> (r: FromGuiLoopMessage) {
        FromGuiLoopMessage::UpdateRangedValueI64(UpdateRangedValue { label, value: self })
    }

    fn to_var_component(self) -> (r: Component) {
        Component::VarI64(Var { value: self })
    }

    fn to_ranged_component(r: RangedVar<i64>) -> (c: Component) {
        Component::RangedVarI64(r)
    }

    fn read_var(c: &Component) -> (r: Option<i64>) {
        match c {
            Component::VarI64(x) => Some(x.value),
            _ => None,
        }
    }

    fn read_ranged(c: &Component) -> (r: Option<RangedVar<i64>>) {
        match c {
            Component::RangedVarI64(x) => Some(*x),
            _ => None,
        }
    }

    fn equals(self, other: i64) -> (r: bool) {
        self == other
    }

    fn clamp_into(self, min_max: (i64, i64)) -> (r: i64) {
        if self < min_max.0 {
            min_max.0
        } else if self > min_max.1 {
            min_max.1
        } else {
            self
        }
    }
}

impl Number for F32Bits {
    open spec fn spec_int(self) -> int {
        total_order_key(self.0 as int, 0x8000_0000)
    }

    open spec fn var_component(v: F32Bits) -> Component {
        Component::VarF32(Var { value: v })
    }

    open spec fn ranged_component(r: RangedVar<F32Bits>) -> Component {
        Component::RangedVarF32(r)
    }

    open spec fn var_of(c: Component) -> Option<F32Bits> {
        match c {
            Component::VarF32(x) => Some(x.value),
            _ => None,
        }
    }

    open spec fn ranged_of(c: Component) -> Option<RangedVar<F32Bits>> {
        match c {
            Component::RangedVarF32(x) => Some(x),
            _ => None,
        }
    }

    open spec fn add_var_msg(label: String, v: F32Bits) -> ToGuiLoopMessage {
        ToGuiLoopMessage::AddVarF32(AddVar { label, value: v })
    }

    open spec fn add_ranged_msg(label: String, r: RangedVar<F32Bits>) -> ToGuiLoopMessage {
        ToGuiLoopMessage::AddRangedVarF32(AddRangedVar { label, value: r.value, min: r.min, max: r.max })
    }

    open spec fn update_ranged_msg(label: String, v: F32Bits) -> FromGuiLoopMessage {
        FromGuiLoopMessage::UpdateRangedValueF32(UpdateRangedValue { label, value: v })
    }

    proof fn lemma_number_kind(v: F32Bits, w: F32Bits, r: RangedVar<F32Bits>) {
    }

    proof fn lemma_update_ranged(c: Seq<(Seq<char>, Component)>, label: String, r: RangedVar<F32Bits>, v: F32Bits) {
    }

    fn add_var_message(self, label: String) -> (r: ToGuiLoopMessage) {
        ToGuiLoopMessage::AddVarF32(AddVar { label, value: self })
    }

    fn add_ranged_var_message(self, label: String, min_max: (F32Bits, F32Bits)) -> (r: ToGuiLoopMessage) {
        ToGuiLoopMessage::AddRangedVarF32(AddRangedVar { label, value: self, min: min_max.0, max: min_max.1 })
    }

    fn update_range_value_message(self, label: String) -> (r: FromGuiLoopMessage) {
        FromGuiLoopMessage::UpdateRangedValueF32(UpdateRangedValue { label, value: self })
    }

    fn to_var_component(self) -> (r: Component) {
        Component::VarF32(Var { value: self })
    }

    fn to_ranged_component(r: RangedVar<F32Bits>) -> (c: Component) {
        Component::RangedVarF32(r)
    }

    fn read_var(c: &Component) -> (r: Option<F32Bits>) {
        match c {
            Component::VarF32(x) => Some(x.value),
            _ => None,
        }
    }

    fn read_ranged(c: &Component) -> (r: Option<RangedVar<F32Bits>>) {
        match c {
            Component::RangedVarF32(x) => Some(*x),
            _ => None,
        }
    }

    fn equals(self, other: F32Bits) -> (r: bool) {
        self.0 == other.0
    }

    fn clamp_into(self, min_max: (F32Bits, F32Bits)) -> (r: F32Bits) {
        let k = f32_key(self);
        if k < f32_key(min_max.0) {
            min_max.0
        } else if k > f32_key(min_max.1) {
            min_max.1
        } else {
            self
        }
    }
}

impl Number for F64Bits {
    open spec fn spec_int(self) -> int {
        total_order_key(self.0 as int, 0x8000_0000_0000_0000)
    }

    open spec fn var_component(v: F64Bits) -> Component {
        Component::VarF64(Var { value: v })
    }

    open spec fn ranged_component(r: RangedVar<F64Bits>) -> Component {
        Component::RangedVarF64(r)
    }

    open spec fn var_of(c: Component) -> Option<F64Bits> {
        match c {
            Component::VarF64(x) => Some(x.value),
            _ => None,
        }
    }

    open spec fn ranged_of(c: Component) -> Option<RangedVar<F64Bits>> {
        match c {
            Component::RangedVarF64(x) => Some(x),
            _ => None,
        }
    }

    open spec fn add_var_msg(label: String, v: F64Bits) -> ToGuiLoopMessage {
        ToGuiLoopMessage::AddVarF64(AddVar { label, value: v })
    }

    open spec fn add_ranged_msg(label: String, r: RangedVar<F64Bits>) -> ToGuiLoopMessage {
        ToGuiLoopMessage::AddRangedVarF64(AddRangedVar { label, value: r.value, min: r.min, max: r.max })
    }

    open spec fn update_ranged_msg(label: String, v: F64Bits) -> FromGuiLoopMessage {
        FromGuiLoopMessage::UpdateRangedValueF64(UpdateRangedValue { label, value: v })
    }

    proof fn lemma_number_kind(v: F64Bits, w: F64Bits, r: RangedVar<F64Bits>) {
    }

    proof fn lemma_update_ranged(c: Seq<(Seq<char>, Component)>, label: String, r: RangedVar<F64Bits>, v: F64Bits) {
    }

    fn add_var_message(self, label: String) -> (r: ToGuiLoopMessage) {
        ToGuiLoopMessage::AddVarF64(AddVar { label, value: self })
    }

    fn add_ranged_var_message(self, label: String, min_max: (F64Bits, F64Bits)) -> (r: ToGuiLoopMessage) {
        ToGuiLoopMessage::AddRangedVarF64(AddRangedVar { label, value: self, min: min_max.0, max: min_max.1 })
    }

    fn update_range_value_message(self, label: String) -> (r: FromGuiLoopMessage) {
        FromGuiLoopMessage::UpdateRangedValueF64(UpdateRangedValue { label, value: self })
    }

    fn to_var_component(self) -> (r: Component) {
        Component::VarF64(Var { value: self })
    }

    fn to_ranged_component(r: RangedVar<F64Bits>) -> (c: Component) {
        Component::RangedVarF64(r)
    }

    fn read_var(c: &Component) -> (r: Option<F64Bits>) {
        match c {
            Component::VarF64(x) => Some(x.value),
            _ => None,
        }
    }

    fn read_ranged(c: &Component) -> (r: Option<RangedVar<F64Bits>>) {
        match c {
            Component::RangedVarF64(x) => Some(*x),
            _ => None,
        }
    }

    fn equals(self, other: F64Bits) -> (r: bool) {
        self.0 == other.0
    }

    fn clamp_into(self, min_max: (F64Bits, F64Bits)) -> (r: F64Bits) {
        let k = f64_key(self);
        if k < f64_key(min_max.0) {
            min_max.0
        } else if k > f64_key(min_max.1) {
            min_max.1
        } else {
            self
        }
    }
}

} // verus!
