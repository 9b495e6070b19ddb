use sutera_world::error::WorldLoadingError;
use sutera_world::transform::{SetSuteraTransform, SuteraTransform};
use sutera_world::yaml_loader::{
    decode_world_source, on_asset_open, on_scene_generation, LoadSession, LoadStep,
};

/// A stand-in for the host scene node: records every call it takes.
struct FakeNode {
    transforms_set: Vec<SuteraTransform>,
    children_attached: usize,
}

impl FakeNode {
    fn new() -> FakeNode {
        FakeNode { transforms_set: Vec::new(), children_attached: 0 }
    }
}

impl SetSuteraTransform for FakeNode {
    fn set_sutera_transform(&mut self, transform: &SuteraTransform) {
        self.transforms_set.push(SuteraTransform::new(
            sutera_world::transform::Vector3 {
                x: transform.position.x.clone(),
                y: transform.position.y.clone(),
                z: transform.position.z.clone(),
            },
            sutera_world::transform::Quaternion {
                x: transform.rotation.x.clone(),
                y: transform.rotation.y.clone(),
                z: transform.rotation.z.clone(),
                w: transform.rotation.w.clone(),
            },
            sutera_world::transform::Vector3 {
                x: transform.scale.x.clone(),
                y: transform.scale.y.clone(),
                z: transform.scale.z.clone(),
            },
        ));
    }
}

/// Drives a session the way a host would: every plan "loads" and attaches.
/// Returns the resolved paths that were loaded, in order.
fn drive(
    source: &str,
    parent: &mut FakeNode,
) -> Result<Vec<String>, sutera_world::error::SpanErr<WorldLoadingError>> {
    let doc = decode_world_source(source)?;
    let mut session = LoadSession::new(doc);
    let mut loaded = Vec::new();
    loop {
        match session.next_step()? {
            LoadStep::Done => return Ok(loaded),
            LoadStep::Request(plan) => {
                on_asset_open(&plan.resolved_path, true, "")?;
                on_scene_generation(true, "")?;
                parent.set_sutera_transform(&plan.transform);
                parent.children_attached += 1;
                loaded.push(plan.resolved_path);
            },
        }
    }
}

const WORLD_HEAD: &str = "\
metadata:
  world_format: sutera_world
  name: scene
  version: \"0.1.0\"
specs:
  spawnpoint:
    x: 0.0
    y: 1.5
    z: 0.0
    pitch: 0.0
    yaw: 90.0
  world_border:
    x_min: -100.0
    x_max: 100.0
    y_min: -10.0
    y_max: 50.0
    z_min: -100.0
    z_max: 100.0
";

fn object(name: &str, type_tag: &str, path: &str) -> String {
    format!(
        "    - name: {name}
      model:
        type: {type_tag}
        path: {path}
        transform:
          position_x: 1.0
          position_y: 2.0
          position_z: 3.0
          rotation_x: 0.0
          rotation_y: 0.0
          rotation_z: 0.0
          rotation_w: 1.0
          scale_x: 1.0
          scale_y: 1.0
          scale_z: 1.0
"
    )
}

#[test]
fn empty_world_attaches_nothing() {
    let source = format!("{WORLD_HEAD}  objects: []\n");
    let mut parent = FakeNode::new();
    let loaded = drive(&source, &mut parent).expect("an empty world loads");
    assert_eq!(loaded.len(), 0);
    assert_eq!(parent.children_attached, 0);
    assert_eq!(parent.transforms_set.len(), 0);
}

#[test]
fn one_gltf_object_loads_transforms_and_attaches_once() {
    let source = format!(
        "{WORLD_HEAD}  objects:\n{}",
        object("chair", "gltf", "furniture/chair.glb")
    );
    let mut parent = FakeNode::new();
    let loaded = drive(&source, &mut parent).expect("one valid object loads");
    assert_eq!(loaded, vec!["res://models/furniture/chair.glb".to_string()]);
    assert_eq!(parent.children_attached, 1);
    assert_eq!(parent.transforms_set.len(), 1);
    let t = &parent.transforms_set[0];
    assert_eq!(t.position.x, serde_yaml::Number::from(1.0));
    assert_eq!(t.position.y, serde_yaml::Number::from(2.0));
    assert_eq!(t.position.z, serde_yaml::Number::from(3.0));
    assert_eq!(t.rotation.w, serde_yaml::Number::from(1.0));
    assert_eq!(t.scale.x, serde_yaml::Number::from(1.0));
}

#[test]
fn unsupported_second_object_aborts_after_first_attach() {
    // The first object is valid and is attached; the second has an unknown
    // tag and kills the load. Nothing is rolled back.
    let source = format!(
        "{WORLD_HEAD}  objects:\n{}{}",
        object("chair", "gltf", "furniture/chair.glb"),
        object("ghost", "unknown", "void.glb")
    );
    let mut parent = FakeNode::new();
    let err = drive(&source, &mut parent).unwrap_err();
    assert_eq!(
        err.error,
        WorldLoadingError::UnsupportedObjectType("unknown".to_string())
    );
    assert_eq!(parent.children_attached, 1);
    assert_eq!(parent.transforms_set.len(), 1);
}

#[test]
fn empty_type_tag_is_a_missing_type_field() {
    let source = format!(
        "{WORLD_HEAD}  objects:\n{}",
        object("chair", "\"\"", "furniture/chair.glb")
    );
    let mut parent = FakeNode::new();
    let err = drive(&source, &mut parent).unwrap_err();
    assert_eq!(
        err.error,
        WorldLoadingError::KeyMissing("type".to_string(), "specs.objects[0].model".to_string())
    );
    assert_eq!(parent.children_attached, 0);
}

#[test]
fn session_error_does_not_advance() {
    let source = format!("{WORLD_HEAD}  objects:\n{}", object("ghost", "unknown", "x.glb"));
    let doc = decode_world_source(&source).unwrap();
    let mut session = LoadSession::new(doc);
    let first = session.next_step().unwrap_err();
    let second = session.next_step().unwrap_err();
    assert_eq!(first.error, second.error);
}

#[test]
fn unopenable_file_is_invalid_path() {
    let err = sutera_world::yaml_loader::on_file_open("worlds/a.yaml", false).unwrap_err();
    assert_eq!(err.error, WorldLoadingError::InvalidPath("worlds/a.yaml".to_string()));
    assert!(sutera_world::yaml_loader::on_file_open("worlds/a.yaml", true).is_ok());
}

#[test]
fn unreadable_file_is_file_read_failed() {
    let err =
        sutera_world::yaml_loader::on_file_read("worlds/a.yaml", false, "not valid UTF-8")
            .unwrap_err();
    assert_eq!(
        err.error,
        WorldLoadingError::FileReadFailed("not valid UTF-8".to_string(), "worlds/a.yaml".to_string())
    );
    assert!(sutera_world::yaml_loader::on_file_read("worlds/a.yaml", true, "").is_ok());
}

#[test]
fn rejected_asset_is_asset_open_failed() {
    let err = on_asset_open("res://models/x.glb", false, "no such file").unwrap_err();
    assert_eq!(
        err.error,
        WorldLoadingError::AssetOpenFailed(
            "res://models/x.glb".to_string(),
            "no such file".to_string()
        )
    );
    assert!(on_asset_open("res://models/x.glb", true, "").is_ok());
}

#[test]
fn empty_scene_is_scene_generation_failed() {
    let err = on_scene_generation(false, "asset holds no scene").unwrap_err();
    assert_eq!(
        err.error,
        WorldLoadingError::SceneGenerationFailed("asset holds no scene".to_string())
    );
    assert!(on_scene_generation(true, "").is_ok());
}
