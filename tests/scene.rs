use vviz::app::{spawn, VVizMode};
use vviz::common::ImageRgba8;
use vviz::entities::{
    Entity3, Faces, LineSegments3, Mesh3, Pose, PositionColorVertices, F32_ONE_BITS,
};
use vviz::gui::{GuiData, Widget};
use vviz::manager::Manager;

fn deliver(manager: &mut Manager, gui: &mut GuiData) {
    for m in manager.take_outbound() {
        m.update_gui(gui);
    }
}

fn segment() -> Entity3 {
    Entity3::LineSegments(LineSegments3 {
        vertices: PositionColorVertices { vertices: vec![[0; 7], [F32_ONE_BITS; 7]] },
        indices: vec![[0, 1]],
    })
}

fn shifted(x_bits: u32) -> Pose {
    Pose { rotation: [0, 0, 0, F32_ONE_BITS], translation: [x_bits, 0, 0] }
}

#[test]
fn placed_entity_takes_its_new_pose() {
    let mut manager = Manager::new();
    let mut gui = GuiData::new();
    let panel = manager.add_widget3("P".to_string());
    panel.place_entity(&mut manager, "A".to_string(), segment());
    deliver(&mut manager, &mut gui);
    assert_eq!(
        gui.entity_pose(&"P".to_string(), &"A".to_string()),
        Some(Pose::identity())
    );
    panel.update_scene_pose_entity(&mut manager, "A".to_string(), shifted(0x4000_0000));
    deliver(&mut manager, &mut gui);
    assert_eq!(
        gui.entity_pose(&"P".to_string(), &"A".to_string()),
        Some(shifted(0x4000_0000))
    );
}

#[test]
fn moving_a_missing_entity_changes_nothing() {
    let mut manager = Manager::new();
    let mut gui = GuiData::new();
    let panel = manager.add_widget3("P".to_string());
    panel.place_entity_at(&mut manager, "A".to_string(), segment(), shifted(0x3f00_0000));
    panel.update_scene_pose_entity(&mut manager, "B".to_string(), shifted(0x4000_0000));
    deliver(&mut manager, &mut gui);
    assert_eq!(
        gui.entity_pose(&"P".to_string(), &"A".to_string()),
        Some(shifted(0x3f00_0000))
    );
    assert_eq!(gui.entity_pose(&"P".to_string(), &"B".to_string()), None);
    match gui.widgets.get("P") {
        Some(Widget::Widget3(w)) => assert_eq!(w.entities.len(), 1),
        _ => panic!("P is not a 3d widget"),
    }
}

#[test]
fn placing_again_replaces_the_entity() {
    let mut manager = Manager::new();
    let mut gui = GuiData::new();
    let panel = manager.add_widget3("P".to_string());
    panel.place_entity(&mut manager, "A".to_string(), segment());
    panel.place_entity(&mut manager, "B".to_string(), segment());
    let mesh = Entity3::Mesh(Mesh3::from_position_color_vertices_and_faces(
        PositionColorVertices { vertices: vec![[0; 7]; 3] },
        Faces::new(vec![[0, 1, 2]]),
    ));
    panel.place_entity_at(&mut manager, "A".to_string(), mesh.clone(), shifted(7));
    deliver(&mut manager, &mut gui);
    match gui.widgets.get("P") {
        Some(Widget::Widget3(w)) => {
            let names: Vec<&String> = w.entities.keys().collect();
            assert_eq!(names, vec!["B", "A"]);
            assert_eq!(w.entities.get("A").unwrap().entity, mesh);
        }
        _ => panic!("P is not a 3d widget"),
    }
}

#[test]
fn image_widget_keeps_its_image() {
    let mut manager = Manager::new();
    let mut gui = GuiData::new();
    let image = ImageRgba8 { bytes: vec![1, 2, 3, 4, 5, 6, 7, 8], width: 2, height: 1 };
    let w = manager.add_widget2("pic".to_string(), image.clone());
    assert_eq!(w.label, "pic");
    deliver(&mut manager, &mut gui);
    match gui.widgets.get("pic") {
        Some(Widget::Widget2(w2)) => assert_eq!(w2.image, image),
        _ => panic!("pic is not a 2d widget"),
    }
    assert_eq!(gui.entity_pose(&"pic".to_string(), &"A".to_string()), None);
}

#[test]
fn consecutive_faces_number_the_vertices_in_order() {
    let faces = Faces::consecutive(3).unwrap();
    assert_eq!(faces.indices, vec![[0, 1, 2], [3, 4, 5], [6, 7, 8]]);
    assert_eq!(Faces::consecutive(0).unwrap().indices, Vec::<[i16; 3]>::new());
    let last = Faces::consecutive(10922).unwrap();
    assert_eq!(last.indices[10921], [32763, 32764, 32765]);
    assert!(Faces::consecutive(10923).is_none());
}

#[test]
fn spawn_hosts_the_presentation_side_only_locally() {
    let (mut manager, gui) = spawn(VVizMode::Local);
    assert!(gui.is_some());
    assert!(manager.take_outbound().is_empty());
    let (_manager, gui) = spawn(VVizMode::Remote);
    assert!(gui.is_none());
}
