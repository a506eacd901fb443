use vviz::common::{
    AddButton, AddEnumStringRepr, AddRangedVar, AddVar, AddWidget2, AddWidget3,
    DeleteComponent, F32Bits, F64Bits, FromGuiLoopMessage, ImageRgba8, PlaceEntity3, ToGuiLoopMessage,
    UpdateButton, UpdateEnumStringRepr, UpdateRangedValue, UpdateScenePoseEntity3, UpdateValue,
};
use vviz::entities::{
    Entity3, Faces, LineSegments3, Mesh3, MeshVertices, NamedEntity3, Pose,
    PositionColorVertices, PositionUvVertices, PositionUvVerticesAndTexture, Texture,
};
use vviz::wire::{
    decode_from_gui, decode_to_gui, encode_from_gui, encode_to_gui, from_gui_to_json,
    pose_from_json, pose_to_json, to_gui_to_json, Json,
};

/// Compact JSON text of a value, members in the order held.
fn text(j: &Json) -> String {
    match j {
        Json::Bool(b) => b.to_string(),
        Json::Num(n) => n.to_string(),
        Json::Str(x) => format!("{:?}", x),
        Json::Array(items) => format!("[{}]", items.iter().map(text).collect::<Vec<_>>().join(",")),
        Json::Object(members) => format!(
            "{{{}}}",
            members.iter().map(|(k, v)| format!("{:?}:{}", k, text(v))).collect::<Vec<_>>().join(",")
        ),
    }
}

fn s(x: &str) -> String {
    x.to_string()
}

fn pose() -> Pose {
    Pose { rotation: [1, 2, 3, 0x3f80_0000], translation: [u32::MAX, 0, 7] }
}

fn every_to_gui_message() -> Vec<ToGuiLoopMessage> {
    let mesh = Entity3::Mesh(Mesh3 {
        vertices: MeshVertices::PositionColor(PositionColorVertices {
            vertices: vec![[1, 2, 3, 4, 5, 6, 7], [u32::MAX; 7], [0; 7]],
        }),
        faces: Faces { indices: vec![[0, 1, 2], [-1, i16::MAX, i16::MIN]] },
    });
    let textured = Entity3::Mesh(Mesh3 {
        vertices: MeshVertices::PositionUvAndTexture(PositionUvVerticesAndTexture {
            vertices: PositionUvVertices { vertices: vec![[9, 8, 7, 6, 5]] },
            texture: Texture {},
        }),
        faces: Faces { indices: vec![] },
    });
    let segments = Entity3::LineSegments(LineSegments3 {
        vertices: PositionColorVertices { vertices: vec![[0; 7], [1; 7]] },
        indices: vec![[0, 1]],
    });
    vec![
        ToGuiLoopMessage::AddEnumStringRepr(AddEnumStringRepr {
            label: s("mode"),
            value: s("Daz"),
            values: vec![s("Foo"), s("Bar"), s("Daz")],
        }),
        ToGuiLoopMessage::AddButton(AddButton { label: s("go") }),
        ToGuiLoopMessage::AddVarBool(AddVar { label: s("flag"), value: true }),
        ToGuiLoopMessage::AddVarUSize(AddVar { label: s("n"), value: usize::MAX }),
        ToGuiLoopMessage::AddVarI32(AddVar { label: s("i"), value: i32::MIN }),
        ToGuiLoopMessage::AddVarI64(AddVar { label: s("l"), value: i64::MIN }),
        ToGuiLoopMessage::AddRangedVarUSize(AddRangedVar { label: s("u"), value: 3, min: 0, max: 9 }),
        ToGuiLoopMessage::AddRangedVarI32(AddRangedVar { label: s("c"), value: 5, min: -50, max: 50 }),
        ToGuiLoopMessage::AddRangedVarI64(AddRangedVar { label: s("r"), value: -1, min: i64::MIN, max: i64::MAX }),
        ToGuiLoopMessage::AddVarF32(AddVar { label: s("g"), value: F32Bits((-2.5f32).to_bits()) }),
        ToGuiLoopMessage::AddVarF64(AddVar { label: s("h"), value: F64Bits(u64::MAX) }),
        ToGuiLoopMessage::AddRangedVarF32(AddRangedVar {
            label: s("k"),
            value: F32Bits(0.5f32.to_bits()),
            min: F32Bits(0.0f32.to_bits()),
            max: F32Bits(1.0f32.to_bits()),
        }),
        ToGuiLoopMessage::AddRangedVarF64(AddRangedVar {
            label: s("red"),
            value: F64Bits(0.1f64.to_bits()),
            min: F64Bits((-1.0f64).to_bits()),
            max: F64Bits(1.0f64.to_bits()),
        }),
        ToGuiLoopMessage::AddWidget2(AddWidget2 {
            label: s("pic"),
            image: ImageRgba8 { bytes: vec![0, 128, 255, 1], width: 1, height: 1 },
        }),
        ToGuiLoopMessage::AddWidget3(AddWidget3 { label: s("w3d") }),
        ToGuiLoopMessage::PlaceEntity3(PlaceEntity3 {
            widget_label: s("w3d"),
            named_entity: NamedEntity3 { label: s("cube"), entity: mesh, scene_pose_entity: pose() },
        }),
        ToGuiLoopMessage::PlaceEntity3(PlaceEntity3 {
            widget_label: s("w3d"),
            named_entity: NamedEntity3 { label: s("tex"), entity: textured, scene_pose_entity: Pose::identity() },
        }),
        ToGuiLoopMessage::PlaceEntity3(PlaceEntity3 {
            widget_label: s("w3d"),
            named_entity: NamedEntity3 { label: s("axes"), entity: segments, scene_pose_entity: pose() },
        }),
        ToGuiLoopMessage::DeleteComponent(DeleteComponent { label: s("gone") }),
        ToGuiLoopMessage::UpdateScenePoseEntity3(UpdateScenePoseEntity3 {
            widget_label: s("w3d"),
            entity_label: s("cube"),
            scene_pose_entity: pose(),
        }),
    ]
}

fn every_from_gui_message() -> Vec<FromGuiLoopMessage> {
    vec![
        FromGuiLoopMessage::UpdateEnumStringRepr(UpdateEnumStringRepr { label: s("mode"), value: s("Bar") }),
        FromGuiLoopMessage::UpdateValueBool(UpdateValue { label: s("flag"), value: false }),
        FromGuiLoopMessage::UpdateRangedValueUSize(UpdateRangedValue { label: s("u"), value: usize::MAX }),
        FromGuiLoopMessage::UpdateRangedValueI32(UpdateRangedValue { label: s("c"), value: -50 }),
        FromGuiLoopMessage::UpdateRangedValueI64(UpdateRangedValue { label: s("r"), value: i64::MAX }),
        FromGuiLoopMessage::UpdateRangedValueF32(UpdateRangedValue { label: s("k"), value: F32Bits(1) }),
        FromGuiLoopMessage::UpdateRangedValueF64(UpdateRangedValue { label: s("red"), value: F64Bits(0x8000_0000_0000_0000) }),
        FromGuiLoopMessage::UpdateButton(UpdateButton { label: s("go") }),
    ]
}

#[test]
fn every_message_survives_the_wire() {
    let to_gui = every_to_gui_message();
    assert_eq!(decode_to_gui(&encode_to_gui(&to_gui)), Some(to_gui));
    let from_gui = every_from_gui_message();
    assert_eq!(decode_from_gui(&encode_from_gui(&from_gui)), Some(from_gui));
    assert_eq!(decode_to_gui(&encode_to_gui(&vec![])), Some(vec![]));
}

#[test]
fn messages_are_tagged_with_their_variant() {
    let j = from_gui_to_json(&FromGuiLoopMessage::UpdateButton(UpdateButton { label: s("go") }));
    assert_eq!(text(&j), r#"{"UpdateButton":{"label":"go"}}"#);
    let j = to_gui_to_json(&ToGuiLoopMessage::AddRangedVarI32(AddRangedVar {
        label: s("c"),
        value: 5,
        min: -50,
        max: 50,
    }));
    assert_eq!(text(&j), r#"{"AddRangedVarI32":{"label":"c","min_max":[-50,50],"value":5}}"#);
}

#[test]
fn pose_travels_as_bit_patterns() {
    let j = pose_to_json(&pose());
    assert_eq!(text(&j), r#"{"rotation":[1,2,3,1065353216],"translation":[4294967295,0,7]}"#);
    assert_eq!(pose_from_json(&j), Some(pose()));
}

#[test]
fn malformed_batches_are_refused() {
    let button = |label: Json| {
        Json::Array(vec![Json::Object(vec![(s("UpdateButton"), Json::Object(vec![(s("label"), label)]))])])
    };
    assert_eq!(
        decode_from_gui(&button(Json::Str(s("go")))),
        Some(vec![FromGuiLoopMessage::UpdateButton(UpdateButton { label: s("go") })])
    );
    assert_eq!(decode_from_gui(&button(Json::Num(1))), None);
    assert_eq!(decode_from_gui(&Json::Str(s("go"))), None);
    let unknown = Json::Array(vec![Json::Object(vec![(s("Explode"), Json::Object(vec![]))])]);
    assert_eq!(decode_from_gui(&unknown), None);
    let too_big = Json::Array(vec![Json::Object(vec![(
        s("UpdateRangedValueI32"),
        Json::Object(vec![(s("label"), Json::Str(s("c"))), (s("value"), Json::Num(i32::MAX as i128 + 1))]),
    )])]);
    assert_eq!(decode_from_gui(&too_big), None);
    let bad_pose = Json::Object(vec![
        (s("rotation"), Json::Array(vec![Json::Num(1)])),
        (s("translation"), Json::Array(vec![Json::Num(0), Json::Num(0), Json::Num(0)])),
    ]);
    assert_eq!(pose_from_json(&bad_pose), None);
}
