use vviz::common::{Component, F32Bits, F64Bits, FromGuiLoopMessage, ToGuiLoopMessage, UpdateButton};
use vviz::gui::GuiData;
use vviz::manager::Manager;

/// Hands the control side's queue to the presentation side, and the presentation side's
/// reports back, as one synchronisation does.
fn deliver(manager: &mut Manager, gui: &mut GuiData, reports: Vec<FromGuiLoopMessage>) {
    for m in manager.take_outbound() {
        m.update_gui(gui);
    }
    manager.apply_inbound(reports).unwrap();
}

#[test]
fn button_press_is_seen_once() {
    let mut manager = Manager::new();
    let mut gui = GuiData::new();
    let button = manager.add_button("go".to_string());
    assert!(!button.was_pressed(&mut manager));
    deliver(&mut manager, &mut gui, vec![]);
    let report = gui.click_button(&"go".to_string()).unwrap();
    assert_eq!(
        report,
        FromGuiLoopMessage::UpdateButton(UpdateButton { label: "go".to_string() })
    );
    deliver(&mut manager, &mut gui, vec![report]);
    assert!(button.was_pressed(&mut manager));
    assert!(!button.was_pressed(&mut manager));
}

#[test]
fn enum_selection_is_reported_once() {
    let mut manager = Manager::new();
    let mut gui = GuiData::new();
    let options = vec!["Foo".to_string(), "Bar".to_string(), "Daz".to_string()];
    let mut mode = manager.add_enum("mode".to_string(), "Daz".to_string(), options);
    deliver(&mut manager, &mut gui, vec![]);
    assert_eq!(mode.get_new_value(&manager), None);
    let report = gui.select_enum(&"mode".to_string(), "Bar".to_string()).unwrap();
    deliver(&mut manager, &mut gui, vec![report]);
    assert_eq!(mode.get_new_value(&manager), Some("Bar".to_string()));
    assert_eq!(mode.get_new_value(&manager), None);
    assert_eq!(mode.get_value(&manager), "Bar".to_string());
}

#[test]
fn enum_selection_outside_options_is_ignored() {
    let mut manager = Manager::new();
    let mut gui = GuiData::new();
    let options = vec!["Foo".to_string(), "Bar".to_string()];
    let _mode = manager.add_enum("mode".to_string(), "Foo".to_string(), options);
    deliver(&mut manager, &mut gui, vec![]);
    assert_eq!(gui.select_enum(&"mode".to_string(), "Qux".to_string()), None);
    assert_eq!(gui.select_enum(&"mode".to_string(), "Foo".to_string()), None);
}

#[test]
fn added_values_are_readable_before_any_round_trip() {
    let mut manager = Manager::new();
    let mut flag = manager.add_bool("foo".to_string(), true);
    let mut count = manager.add_number("const int".to_string(), 42i64);
    let mut red = manager.add_ranged_value("red".to_string(), 7usize, (0usize, 10usize));
    let mut counter = manager.add_ranged_value("counter".to_string(), -5i32, (-50i32, 50i32));
    assert!(flag.get_value(&manager));
    assert_eq!(count.get_value(&manager), 42);
    assert_eq!(red.get_value(&manager), 7);
    assert_eq!(counter.get_value(&manager), -5);
    assert_eq!(flag.get_new_value(&manager), None);
    assert_eq!(count.get_new_value(&manager), None);
    assert_eq!(red.get_new_value(&manager), None);
    assert_eq!(counter.get_new_value(&manager), None);
}

#[test]
fn add_queues_exactly_one_message_each() {
    let mut manager = Manager::new();
    let _b = manager.add_button("b".to_string());
    let _n = manager.add_number("n".to_string(), 3i32);
    let _w = manager.add_widget3("w".to_string());
    let out = manager.take_outbound();
    assert_eq!(out.len(), 3);
    assert!(matches!(&out[0], ToGuiLoopMessage::AddButton(a) if a.label == "b"));
    assert!(matches!(&out[1], ToGuiLoopMessage::AddVarI32(a) if a.label == "n" && a.value == 3));
    assert!(matches!(&out[2], ToGuiLoopMessage::AddWidget3(a) if a.label == "w"));
    assert!(manager.take_outbound().is_empty());
}

#[test]
fn slider_reports_are_clamped_and_mirrored() {
    let mut manager = Manager::new();
    let mut gui = GuiData::new();
    let mut counter = manager.add_ranged_value("counter".to_string(), 5i32, (-50i32, 50i32));
    deliver(&mut manager, &mut gui, vec![]);
    let report = gui.set_ranged_value(&"counter".to_string(), 80i32).unwrap();
    deliver(&mut manager, &mut gui, vec![report]);
    assert_eq!(counter.get_new_value(&manager), Some(50));
    assert_eq!(counter.get_value(&manager), 50);
    assert_eq!(gui.set_ranged_value(&"counter".to_string(), 50i32), None);
    let report = gui.set_ranged_value(&"counter".to_string(), -7i32).unwrap();
    deliver(&mut manager, &mut gui, vec![report]);
    assert_eq!(counter.get_new_value(&manager), Some(-7));
    assert_eq!(counter.get_new_value(&manager), None);
}

#[test]
fn slider_of_other_kind_is_not_moved() {
    let mut manager = Manager::new();
    let mut gui = GuiData::new();
    let _counter = manager.add_ranged_value("counter".to_string(), 5i32, (0i32, 9i32));
    deliver(&mut manager, &mut gui, vec![]);
    assert_eq!(gui.set_ranged_value(&"counter".to_string(), 3i64), None);
    assert_eq!(gui.set_ranged_value(&"missing".to_string(), 3i32), None);
}

#[test]
fn checkbox_toggle_is_reported_once() {
    let mut manager = Manager::new();
    let mut gui = GuiData::new();
    let mut flag = manager.add_bool("flag".to_string(), false);
    deliver(&mut manager, &mut gui, vec![]);
    assert_eq!(gui.set_bool(&"flag".to_string(), false), None);
    let report = gui.set_bool(&"flag".to_string(), true).unwrap();
    deliver(&mut manager, &mut gui, vec![report]);
    assert_eq!(flag.get_new_value(&manager), Some(true));
    assert_eq!(flag.get_new_value(&manager), None);
    assert!(flag.get_value(&manager));
}

#[test]
fn out_of_step_report_is_refused_with_its_index() {
    let mut manager = Manager::new();
    let mut gui = GuiData::new();
    let button = manager.add_button("go".to_string());
    deliver(&mut manager, &mut gui, vec![]);
    let good = FromGuiLoopMessage::UpdateButton(UpdateButton { label: "go".to_string() });
    let bad = FromGuiLoopMessage::UpdateButton(UpdateButton { label: "gone".to_string() });
    assert_eq!(manager.apply_inbound(vec![good, bad]), Err(1));
    assert!(button.was_pressed(&mut manager));
}

#[test]
fn readding_a_label_replaces_and_moves_it_last() {
    let mut gui = GuiData::new();
    let mut manager = Manager::new();
    let _a = manager.add_button("a".to_string());
    let _b = manager.add_bool("b".to_string(), true);
    let _a2 = manager.add_number("a".to_string(), 9usize);
    deliver(&mut manager, &mut gui, vec![]);
    let labels: Vec<&String> = gui.components.keys().collect();
    assert_eq!(labels, vec!["b", "a"]);
    assert!(matches!(gui.component(&"a".to_string()), Some(Component::VarUSize(v)) if v.value == 9));
}

#[test]
fn delete_component_removes_and_ignores_missing() {
    let mut gui = GuiData::new();
    let mut manager = Manager::new();
    let _a = manager.add_button("a".to_string());
    manager.delete_component("a".to_string());
    manager.delete_component("never".to_string());
    deliver(&mut manager, &mut gui, vec![]);
    assert!(gui.component(&"a".to_string()).is_none());
    assert!(gui.components.is_empty());
}

fn f64b(x: f64) -> F64Bits {
    F64Bits(x.to_bits())
}

#[test]
fn float_slider_is_clamped_in_number_order() {
    let mut manager = Manager::new();
    let mut gui = GuiData::new();
    let mut red = manager.add_ranged_value("red".to_string(), f64b(0.1), (f64b(-1.0), f64b(1.0)));
    assert_eq!(f64::from_bits(red.get_value(&manager).0), 0.1);
    deliver(&mut manager, &mut gui, vec![]);
    let report = gui.set_ranged_value(&"red".to_string(), f64b(1.5)).unwrap();
    deliver(&mut manager, &mut gui, vec![report]);
    assert_eq!(red.get_new_value(&manager), Some(f64b(1.0)));
    let report = gui.set_ranged_value(&"red".to_string(), f64b(-2.0)).unwrap();
    deliver(&mut manager, &mut gui, vec![report]);
    assert_eq!(red.get_new_value(&manager), Some(f64b(-1.0)));
    let report = gui.set_ranged_value(&"red".to_string(), f64b(-0.25)).unwrap();
    deliver(&mut manager, &mut gui, vec![report]);
    assert_eq!(red.get_new_value(&manager), Some(f64b(-0.25)));
    assert_eq!(red.get_new_value(&manager), None);
}

#[test]
fn single_precision_values_are_mirrored() {
    let mut manager = Manager::new();
    let mut gui = GuiData::new();
    let mut gain = manager.add_number("gain".to_string(), F32Bits(2.5f32.to_bits()));
    let mut knob = manager.add_ranged_value(
        "knob".to_string(),
        F32Bits(0.0f32.to_bits()),
        (F32Bits((-3.0f32).to_bits()), F32Bits(3.0f32.to_bits())),
    );
    assert_eq!(f32::from_bits(gain.get_value(&manager).0), 2.5);
    deliver(&mut manager, &mut gui, vec![]);
    let report = gui.set_ranged_value(&"knob".to_string(), F32Bits((-7.0f32).to_bits())).unwrap();
    deliver(&mut manager, &mut gui, vec![report]);
    assert_eq!(f32::from_bits(knob.get_value(&manager).0), -3.0);
    assert_eq!(gain.get_new_value(&manager), None);
}

#[test]
fn outbound_queue_is_first_in_first_out() {
    let mut manager = Manager::new();
    let w = manager.add_widget3("w".to_string());
    w.place_entity(
        &mut manager,
        "a".to_string(),
        vviz::entities::Entity3::LineSegments(vviz::entities::LineSegments3 {
            vertices: vviz::entities::PositionColorVertices { vertices: vec![] },
            indices: vec![],
        }),
    );
    manager.delete_component("x".to_string());
    let out = manager.take_outbound();
    assert!(matches!(&out[0], ToGuiLoopMessage::AddWidget3(_)));
    assert!(matches!(&out[1], ToGuiLoopMessage::PlaceEntity3(p) if p.widget_label == "w" && p.named_entity.label == "a"));
    assert!(matches!(&out[2], ToGuiLoopMessage::DeleteComponent(d) if d.label == "x"));
}

#[test]
fn report_of_the_wrong_kind_is_refused() {
    let mut manager = Manager::new();
    let _flag = manager.add_bool("flag".to_string(), false);
    let wrong = FromGuiLoopMessage::UpdateButton(UpdateButton { label: "flag".to_string() });
    assert_eq!(manager.apply_inbound(vec![wrong]), Err(0));
    assert_eq!(manager.apply_inbound(vec![]), Ok(()));
}

#[test]
fn two_handles_keep_their_own_edge() {
    let mut manager = Manager::new();
    let mut gui = GuiData::new();
    let mut first = manager.add_ranged_value("s".to_string(), 1i64, (0i64, 10i64));
    let mut second = vviz::manager::UiRangedVar { label: "s".to_string(), cache: 1i64 };
    deliver(&mut manager, &mut gui, vec![]);
    let report = gui.set_ranged_value(&"s".to_string(), 4i64).unwrap();
    deliver(&mut manager, &mut gui, vec![report]);
    assert_eq!(first.get_new_value(&manager), Some(4));
    assert_eq!(first.get_new_value(&manager), None);
    assert_eq!(second.get_new_value(&manager), Some(4));
}

#[test]
fn entity_message_without_its_widget_is_not_accepted() {
    let gui = GuiData::new();
    let m = ToGuiLoopMessage::UpdateScenePoseEntity3(vviz::common::UpdateScenePoseEntity3 {
        widget_label: "nowhere".to_string(),
        entity_label: "a".to_string(),
        scene_pose_entity: vviz::entities::Pose::identity(),
    });
    assert!(!gui.accepts(&m));
    let add = ToGuiLoopMessage::DeleteComponent(vviz::common::DeleteComponent { label: "x".to_string() });
    assert!(gui.accepts(&add));
}
