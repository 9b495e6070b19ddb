use sutera_world::error::WorldLoadingError;
use sutera_world::yaml_loader::decode_world_source;

fn n(f: f64) -> serde_yaml::Number {
    serde_yaml::Number::from(f)
}

const VALID_EMPTY_WORLD: &str = "\
metadata:
  world_format: sutera_world
  name: empty plain
  version: \"0.1.0\"
specs:
  spawnpoint:
    x: 0.0
    y: 1.5
    z: 0.0
    pitch: 0.0
    yaw: 90.0
  world_border:
    x_min: -100.0
    x_max: 100.0
    y_min: -10.0
    y_max: 50.0
    z_min: -100.0
    z_max: 100.0
  objects: []
";

const VALID_ONE_OBJECT: &str = "\
metadata:
  world_format: sutera_world
  name: one chair
  version: \"0.1.0\"
specs:
  spawnpoint:
    x: 0.0
    y: 1.5
    z: 0.0
    pitch: 0.0
    yaw: 90.0
  world_border:
    x_min: -100.0
    x_max: 100.0
    y_min: -10.0
    y_max: 50.0
    z_min: -100.0
    z_max: 100.0
  objects:
    - name: chair
      model:
        type: gltf
        path: furniture/chair.glb
        transform:
          position_x: 1.0
          position_y: 2.0
          position_z: 3.0
          rotation_x: 0.0
          rotation_y: 0.0
          rotation_z: 0.0
          rotation_w: 1.0
          scale_x: 1.0
          scale_y: 1.0
          scale_z: 1.0
";

#[test]
fn empty_object_list_decodes() {
    let doc = decode_world_source(VALID_EMPTY_WORLD).expect("an empty world decodes");
    assert_eq!(doc.metadata.world_format, "sutera_world");
    assert_eq!(doc.metadata.name, "empty plain");
    assert_eq!(doc.metadata.version, "0.1.0");
    assert_eq!(doc.specs.spawnpoint.y, n(1.5));
    assert_eq!(doc.specs.spawnpoint.yaw, n(90.0));
    assert_eq!(doc.specs.world_border.x_min, n(-100.0));
    assert_eq!(doc.specs.world_border.y_max, n(50.0));
    assert_eq!(doc.specs.objects.len(), 0);
}

#[test]
fn one_object_decodes_fully() {
    let doc = decode_world_source(VALID_ONE_OBJECT).expect("a one-object world decodes");
    assert_eq!(doc.specs.objects.len(), 1);
    let obj = &doc.specs.objects[0];
    assert_eq!(obj.name, "chair");
    assert_eq!(obj.model.model_type, "gltf");
    assert_eq!(obj.model.path, "furniture/chair.glb");
    assert_eq!(obj.model.transform.position_x, n(1.0));
    assert_eq!(obj.model.transform.position_y, n(2.0));
    assert_eq!(obj.model.transform.position_z, n(3.0));
    assert_eq!(obj.model.transform.rotation_w, n(1.0));
    assert_eq!(obj.model.transform.scale_z, n(1.0));
}

#[test]
fn inverted_world_border_is_accepted() {
    // Known gap, guarded as such: min > max passes the decoder untouched.
    let source = VALID_EMPTY_WORLD.replace("x_min: -100.0", "x_min: 500.0");
    let doc = decode_world_source(&source).expect("inverted bounds are not rejected");
    assert_eq!(doc.specs.world_border.x_min, n(500.0));
    assert_eq!(doc.specs.world_border.x_max, n(100.0));
}

#[test]
fn scalar_document_is_parse_failure() {
    let err = decode_world_source("just a string").unwrap_err();
    assert!(matches!(err.error, WorldLoadingError::ParseFailed(_)));
}

#[test]
fn sequence_document_is_parse_failure() {
    let err = decode_world_source("- 1\n- 2\n").unwrap_err();
    assert!(matches!(err.error, WorldLoadingError::ParseFailed(_)));
}

#[test]
fn unparsable_text_is_parse_failure() {
    let err = decode_world_source("a: [unclosed\nb: }{").unwrap_err();
    assert!(matches!(err.error, WorldLoadingError::ParseFailed(_)));
}

#[test]
fn missing_metadata_key() {
    let source = VALID_EMPTY_WORLD.replace("metadata:", "meta_data:");
    let err = decode_world_source(&source).unwrap_err();
    assert_eq!(
        err.error,
        WorldLoadingError::KeyMissing("metadata".to_string(), "document".to_string())
    );
}

#[test]
fn missing_metadata_name() {
    let source = VALID_EMPTY_WORLD.replace("  name: empty plain\n", "");
    let err = decode_world_source(&source).unwrap_err();
    assert_eq!(
        err.error,
        WorldLoadingError::KeyMissing("name".to_string(), "metadata".to_string())
    );
}

#[test]
fn numeric_metadata_name_is_wrong_type() {
    let source = VALID_EMPTY_WORLD.replace("name: empty plain", "name: 17");
    let err = decode_world_source(&source).unwrap_err();
    assert_eq!(
        err.error,
        WorldLoadingError::WrongType("name".to_string(), "metadata".to_string())
    );
}

#[test]
fn missing_spawnpoint_field() {
    let source = VALID_EMPTY_WORLD.replace("    pitch: 0.0\n", "");
    let err = decode_world_source(&source).unwrap_err();
    assert_eq!(
        err.error,
        WorldLoadingError::KeyMissing("pitch".to_string(), "specs.spawnpoint".to_string())
    );
}

#[test]
fn string_border_field_is_wrong_type() {
    let source = VALID_EMPTY_WORLD.replace("z_max: 100.0", "z_max: far away");
    let err = decode_world_source(&source).unwrap_err();
    assert_eq!(
        err.error,
        WorldLoadingError::WrongType("z_max".to_string(), "specs.world_border".to_string())
    );
}

#[test]
fn objects_must_be_a_sequence() {
    let source = VALID_EMPTY_WORLD.replace("objects: []", "objects: none");
    let err = decode_world_source(&source).unwrap_err();
    assert_eq!(
        err.error,
        WorldLoadingError::WrongType("objects".to_string(), "specs".to_string())
    );
}

#[test]
fn object_element_must_be_a_mapping() {
    let source = VALID_EMPTY_WORLD.replace("objects: []", "objects:\n    - chair");
    let err = decode_world_source(&source).unwrap_err();
    assert_eq!(
        err.error,
        WorldLoadingError::WrongType("objects[0]".to_string(), "specs".to_string())
    );
}

#[test]
fn object_without_model() {
    let source = VALID_EMPTY_WORLD.replace("objects: []", "objects:\n    - name: chair");
    let err = decode_world_source(&source).unwrap_err();
    assert_eq!(
        err.error,
        WorldLoadingError::KeyMissing("model".to_string(), "specs.objects[0]".to_string())
    );
}

#[test]
fn absent_type_tag_is_invalid_object_type() {
    let source = VALID_ONE_OBJECT.replace("        type: gltf\n", "");
    let err = decode_world_source(&source).unwrap_err();
    assert_eq!(
        err.error,
        WorldLoadingError::InvalidObjectType("specs.objects[0].model.type".to_string())
    );
}

#[test]
fn numeric_type_tag_is_invalid_object_type() {
    let source = VALID_ONE_OBJECT.replace("type: gltf", "type: 3");
    let err = decode_world_source(&source).unwrap_err();
    assert_eq!(
        err.error,
        WorldLoadingError::InvalidObjectType("specs.objects[0].model.type".to_string())
    );
}

#[test]
fn missing_model_path() {
    let source = VALID_ONE_OBJECT.replace("        path: furniture/chair.glb\n", "");
    let err = decode_world_source(&source).unwrap_err();
    assert_eq!(
        err.error,
        WorldLoadingError::KeyMissing("path".to_string(), "specs.objects[0].model".to_string())
    );
}

#[test]
fn missing_transform_mapping() {
    let idx = VALID_ONE_OBJECT.find("        transform:").unwrap();
    let source = &VALID_ONE_OBJECT[..idx];
    let err = decode_world_source(source).unwrap_err();
    assert_eq!(
        err.error,
        WorldLoadingError::KeyMissing(
            "transform".to_string(),
            "specs.objects[0].model".to_string()
        )
    );
}

#[test]
fn missing_transform_field_is_addressed_to_the_object() {
    let source = VALID_ONE_OBJECT.replace("          rotation_w: 1.0\n", "");
    let err = decode_world_source(&source).unwrap_err();
    assert_eq!(
        err.error,
        WorldLoadingError::KeyMissing(
            "rotation_w".to_string(),
            "specs.objects[0].model.transform".to_string()
        )
    );
}

#[test]
fn second_object_error_is_addressed_by_index() {
    // Duplicate the object, then break only the second copy's transform.
    let object_block = &VALID_ONE_OBJECT[VALID_ONE_OBJECT.find("    - name: chair").unwrap()..];
    let second = object_block
        .replace("- name: chair", "- name: table")
        .replace("          scale_z: 1.0\n", "");
    let source = format!("{}{}", VALID_ONE_OBJECT, second);
    let err = decode_world_source(&source).unwrap_err();
    assert_eq!(
        err.error,
        WorldLoadingError::KeyMissing(
            "scale_z".to_string(),
            "specs.objects[1].model.transform".to_string()
        )
    );
}

#[test]
fn decoding_is_a_function_of_the_text() {
    let once = decode_world_source(VALID_ONE_OBJECT).expect("decodes");
    let twice = decode_world_source(VALID_ONE_OBJECT).expect("decodes");
    assert_eq!(once, twice);
}

#[test]
fn tagged_value_is_parse_failure() {
    let source = VALID_EMPTY_WORLD.replace("name: empty plain", "name: !Thing empty plain");
    let err = decode_world_source(&source).unwrap_err();
    assert_eq!(
        err.error,
        WorldLoadingError::ParseFailed("unsupported document structure".to_string())
    );
}

#[test]
fn unknown_type_tag_still_decodes() {
    // An unsupported tag is a load-planning error, not a decode error.
    let source = VALID_ONE_OBJECT.replace("type: gltf", "type: voxel");
    let doc = decode_world_source(&source).expect("any string passes as a tag at decode");
    assert_eq!(doc.specs.objects[0].model.model_type, "voxel");
}
