use sutera_world::error::WorldLoadingError;
use sutera_world::raw::Yaml;
use sutera_world::transform::{decode_transform, encode_transform, SuteraTransform};
use sutera_world::world_format::SuteraTransformSpecs;

const KEYS: [&str; 10] = [
    "position_x",
    "position_y",
    "position_z",
    "rotation_x",
    "rotation_y",
    "rotation_z",
    "rotation_w",
    "scale_x",
    "scale_y",
    "scale_z",
];

fn num(f: f64) -> serde_yaml::Number {
    serde_yaml::Number::from(f)
}

fn entry(key: &str, value: Yaml) -> (Yaml, Yaml) {
    (Yaml::Str(key.to_string()), value)
}

fn full_entries() -> Vec<(Yaml, Yaml)> {
    KEYS.iter()
        .enumerate()
        .map(|(i, k)| entry(k, Yaml::Num(num(i as f64 + 0.5))))
        .collect()
}

fn sample_specs() -> SuteraTransformSpecs {
    SuteraTransformSpecs {
        position_x: num(1.5),
        position_y: num(-2.25),
        position_z: num(3.0),
        rotation_x: num(0.0),
        rotation_y: num(0.5),
        rotation_z: num(-0.5),
        rotation_w: num(1.0),
        scale_x: num(2.0),
        scale_y: num(0.125),
        scale_z: num(4.0),
    }
}

#[test]
fn decode_all_ten_fields() {
    let t = decode_transform(&full_entries(), "t").expect("all ten fields present");
    assert_eq!(t.position_x, num(0.5));
    assert_eq!(t.position_y, num(1.5));
    assert_eq!(t.position_z, num(2.5));
    assert_eq!(t.rotation_x, num(3.5));
    assert_eq!(t.rotation_y, num(4.5));
    assert_eq!(t.rotation_z, num(5.5));
    assert_eq!(t.rotation_w, num(6.5));
    assert_eq!(t.scale_x, num(7.5));
    assert_eq!(t.scale_y, num(8.5));
    assert_eq!(t.scale_z, num(9.5));
}

#[test]
fn omitting_each_key_names_exactly_that_key() {
    for skip in KEYS {
        let entries: Vec<(Yaml, Yaml)> = full_entries()
            .into_iter()
            .filter(|(k, _)| !matches!(k, Yaml::Str(s) if s == skip))
            .collect();
        let err = decode_transform(&entries, "ctx").unwrap_err();
        assert_eq!(
            err.error,
            WorldLoadingError::KeyMissing(skip.to_string(), "ctx".to_string())
        );
    }
}

#[test]
fn non_numeric_value_names_exactly_that_key() {
    for bad in KEYS {
        let entries: Vec<(Yaml, Yaml)> = full_entries()
            .into_iter()
            .map(|(k, v)| {
                if matches!(&k, Yaml::Str(s) if s == bad) {
                    (k, Yaml::Str("not a number".to_string()))
                } else {
                    (k, v)
                }
            })
            .collect();
        let err = decode_transform(&entries, "ctx").unwrap_err();
        assert_eq!(
            err.error,
            WorldLoadingError::WrongType(bad.to_string(), "ctx".to_string())
        );
    }
}

#[test]
fn fail_fast_reports_first_key_in_codec_order() {
    // position_y is absent and rotation_x is mistyped: the codec checks
    // position first, so position_y wins.
    let entries: Vec<(Yaml, Yaml)> = full_entries()
        .into_iter()
        .filter(|(k, _)| !matches!(k, Yaml::Str(s) if s == "position_y"))
        .map(|(k, v)| {
            if matches!(&k, Yaml::Str(s) if s == "rotation_x") {
                (k, Yaml::Bool(true))
            } else {
                (k, v)
            }
        })
        .collect();
    let err = decode_transform(&entries, "ctx").unwrap_err();
    assert_eq!(
        err.error,
        WorldLoadingError::KeyMissing("position_y".to_string(), "ctx".to_string())
    );
}

#[test]
fn extra_keys_are_ignored() {
    let mut entries = full_entries();
    entries.push(entry("anchor", Yaml::Null));
    let t = decode_transform(&entries, "t").expect("extra keys do not hurt");
    assert_eq!(t.position_x, num(0.5));
}

#[test]
fn document_order_of_keys_does_not_matter() {
    let mut entries = full_entries();
    entries.reverse();
    let t = decode_transform(&entries, "t").expect("order in the document is free");
    assert_eq!(t.position_x, num(0.5));
    assert_eq!(t.scale_z, num(9.5));
}

#[test]
fn round_trip_reproduces_all_ten_scalars() {
    let t = sample_specs();
    let encoded = encode_transform(&t);
    let entries = match &encoded {
        Yaml::Mapping(es) => es,
        _ => panic!("encoding is a mapping"),
    };
    let back = decode_transform(entries, "t").expect("a fresh encoding decodes");
    assert_eq!(back, sample_specs());
}

#[test]
fn conversion_to_in_memory_transform_keeps_scalars() {
    let t = SuteraTransform::from(sample_specs());
    assert_eq!(t.position.x, num(1.5));
    assert_eq!(t.position.y, num(-2.25));
    assert_eq!(t.position.z, num(3.0));
    assert_eq!(t.rotation.x, num(0.0));
    assert_eq!(t.rotation.y, num(0.5));
    assert_eq!(t.rotation.z, num(-0.5));
    assert_eq!(t.rotation.w, num(1.0));
    assert_eq!(t.scale.x, num(2.0));
    assert_eq!(t.scale.y, num(0.125));
    assert_eq!(t.scale.z, num(4.0));
}

#[test]
fn transform_new_packs_components() {
    let t = SuteraTransform::from(sample_specs());
    let u = SuteraTransform::new(t.position, t.rotation, t.scale);
    assert_eq!(u, SuteraTransform::from(sample_specs()));
}
