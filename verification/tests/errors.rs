use sutera_world::error::{SpanErr, WorldLoadingError};
use sutera_world::gltf::path_solver;
use sutera_world::text::u64_to_string;

#[test]
fn messages_name_the_offender() {
    let cases: Vec<(WorldLoadingError, &str)> = vec![
        (
            WorldLoadingError::InvalidPath("worlds/a.yaml".into()),
            "This world file path (worlds/a.yaml) is invalid",
        ),
        (
            WorldLoadingError::FileReadFailed("permission denied".into(), "worlds/a.yaml".into()),
            "Failed to read world file (worlds/a.yaml). Reason: permission denied",
        ),
        (
            WorldLoadingError::ParseFailed("bad indent".into()),
            "Failed to parse world file. Reason: bad indent",
        ),
        (
            WorldLoadingError::KeyMissing("name".into(), "metadata".into()),
            "'name' key was not found in metadata.",
        ),
        (
            WorldLoadingError::WrongType("x".into(), "specs.spawnpoint".into()),
            "'x' key in specs.spawnpoint has the wrong type.",
        ),
        (
            WorldLoadingError::UnsupportedObjectType("voxel".into()),
            "This 3D object type 'voxel' is not yet implemented.",
        ),
        (
            WorldLoadingError::InvalidObjectType("specs.objects[0].model.type".into()),
            "The 3D object type at specs.objects[0].model.type is missing or not a string.",
        ),
        (
            WorldLoadingError::AssetOpenFailed("res://models/x.glb".into(), "broken file".into()),
            "Failed to open asset file at res://models/x.glb. Reason: broken file",
        ),
        (
            WorldLoadingError::SceneGenerationFailed("empty scene".into()),
            "Failed to generate 3D model. Reason: empty scene",
        ),
    ];
    for (err, want) in cases {
        assert_eq!(err.message(), want);
    }
}

#[test]
fn span_err_wraps_and_keeps_the_payload() {
    let e = SpanErr::from(WorldLoadingError::ParseFailed("x".into()));
    assert_eq!(e.error, WorldLoadingError::ParseFailed("x".into()));
}

#[test]
fn span_err_map_exchanges_the_payload() {
    let e = SpanErr::from(WorldLoadingError::ParseFailed("deep reason".into()));
    let wrapped = e.map(|inner| match inner {
        WorldLoadingError::ParseFailed(r) => WorldLoadingError::FileReadFailed(r, "a.yaml".into()),
        other => other,
    });
    assert_eq!(
        wrapped.error,
        WorldLoadingError::FileReadFailed("deep reason".into(), "a.yaml".into())
    );
}

#[test]
fn path_solver_prefixes_the_mount_point() {
    assert_eq!(path_solver("furniture/chair.glb"), "res://models/furniture/chair.glb");
    assert_eq!(path_solver(""), "res://models/");
}

#[test]
fn decimal_rendering() {
    assert_eq!(u64_to_string(0), "0");
    assert_eq!(u64_to_string(7), "7");
    assert_eq!(u64_to_string(10), "10");
    assert_eq!(u64_to_string(123), "123");
    assert_eq!(u64_to_string(1000000), "1000000");
    assert_eq!(u64_to_string(u64::MAX), "18446744073709551615");
}
