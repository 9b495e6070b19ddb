//! The typed world schema model.
//!
//! A decoded world document: metadata, spawn point, world border, and the
//! ordered list of placed objects. The order of `objects` is significant —
//! it is also the load and placement order. Numeric scalars keep the
//! parser's opaque representation ([`serde_yaml::Number`]); the schema
//! neither clamps nor renormalises them.

use vstd::prelude::*;
use crate::error::{ErrorView, SpanErr, WorldLoadingError};
use crate::raw::{
    mapping_field, number_field, sequence_field, spec_lookup, spec_mapping_field,
    spec_number_field, spec_sequence_field, spec_string_field, string_field, yaml_lookup, Yaml,
};
use crate::text::{spec_dec, u64_to_string};
use crate::transform::{decode_transform, spec_decode_transform};

verus! {

/// The whole world document.
#[derive(Debug, PartialEq)]
pub struct SuteraWorldYamlFormat {
    pub metadata: WorldMetadata,
    pub specs: WorldSpecs,
}

/// Identifies the document's schema; `version` is kept as an opaque string,
/// not cross-checked against any registry.
#[derive(Debug, PartialEq)]
pub struct WorldMetadata {
    pub world_format: String,
    pub name: String,
    pub version: String,
}

/// The world's fixed substructures and its object list.
#[derive(Debug, PartialEq)]
pub struct WorldSpecs {
    pub spawnpoint: SpawnPoint,
    pub world_border: WorldBorder,
    pub objects: Vec<WorldObject>,
}

/// Where a player enters the world. No range clamping is performed.
#[derive(Debug, PartialEq)]
pub struct SpawnPoint {
    pub x: serde_yaml::Number,
    pub y: serde_yaml::Number,
    pub z: serde_yaml::Number,
    pub pitch: serde_yaml::Number,
    pub yaw: serde_yaml::Number,
}

/// The world's bounds. The decoder does not enforce `min <= max`: a
/// document with inverted bounds is accepted, a documented gap rather than
/// a silent fix.
#[derive(Debug, PartialEq)]
pub struct WorldBorder {
    pub x_min: serde_yaml::Number,
    pub x_max: serde_yaml::Number,
    pub y_min: serde_yaml::Number,
    pub y_max: serde_yaml::Number,
    pub z_min: serde_yaml::Number,
    pub z_max: serde_yaml::Number,
}

/// One placed object. `name` is free-form and need not be unique.
#[derive(Debug, PartialEq)]
pub struct WorldObject {
    pub name: String,
    pub model: Sutera3DModel,
}

/// An object's model reference: an open type tag, a logical asset path,
/// and the serialized transform.
#[derive(Debug, PartialEq)]
pub struct Sutera3DModel {
    pub model_type: String,
    pub path: String,
    pub transform: SuteraTransformSpecs,
}

/// The serialized transform: ten independent scalar fields. Non-unit
/// quaternions and non-finite values pass through unchanged.
#[derive(Debug, PartialEq)]
pub struct SuteraTransformSpecs {
    pub position_x: serde_yaml::Number,
    pub position_y: serde_yaml::Number,
    pub position_z: serde_yaml::Number,
    pub rotation_x: serde_yaml::Number,
    pub rotation_y: serde_yaml::Number,
    pub rotation_z: serde_yaml::Number,
    pub rotation_w: serde_yaml::Number,
    pub scale_x: serde_yaml::Number,
    pub scale_y: serde_yaml::Number,
    pub scale_z: serde_yaml::Number,
}

/// Mathematical shadow of [`WorldMetadata`].
pub struct WorldMetadataView {
    pub world_format: Seq<char>,
    pub name: Seq<char>,
    pub version: Seq<char>,
}

/// Mathematical shadow of [`WorldObject`].
pub struct WorldObjectView {
    pub name: Seq<char>,
    pub model: Sutera3DModelView,
}

/// Mathematical shadow of [`Sutera3DModel`]. The transform needs no
/// abstraction of its own: its fields are already opaque scalars.
pub struct Sutera3DModelView {
    pub model_type: Seq<char>,
    pub path: Seq<char>,
    pub transform: SuteraTransformSpecs,
}

/// Mathematical shadow of [`WorldSpecs`].
pub struct WorldSpecsView {
    pub spawnpoint: SpawnPoint,
    pub world_border: WorldBorder,
    pub objects: Seq<WorldObjectView>,
}

/// Mathematical shadow of [`SuteraWorldYamlFormat`].
pub struct SuteraWorldView {
    pub metadata: WorldMetadataView,
    pub specs: WorldSpecsView,
}

impl View for WorldMetadata {
    type V = WorldMetadataView;

    open spec fn view(&self) -> WorldMetadataView {
        WorldMetadataView {
            world_format: self.world_format@,
            name: self.name@,
            version: self.version@,
        }
    }
}

impl View for Sutera3DModel {
    type V = Sutera3DModelView;

    open spec fn view(&self) -> Sutera3DModelView {
        Sutera3DModelView {
            model_type: self.model_type@,
            path: self.path@,
            transform: self.transform,
        }
    }
}

impl View for WorldObject {
    type V = WorldObjectView;

    open spec fn view(&self) -> WorldObjectView {
        WorldObjectView { name: self.name@, model: self.model@ }
    }
}

impl View for WorldSpecs {
    type V = WorldSpecsView;

    open spec fn view(&self) -> WorldSpecsView {
        WorldSpecsView {
            spawnpoint: self.spawnpoint,
            world_border: self.world_border,
            objects: self.objects@.map_values(|o: WorldObject| o@),
        }
    }
}

impl View for SuteraWorldYamlFormat {
    type V = SuteraWorldView;

    open spec fn view(&self) -> SuteraWorldView {
        SuteraWorldView { metadata: self.metadata@, specs: self.specs@ }
    }
}

/// The document path of the `i`-th object.
pub open spec fn spec_object_ctx(i: int) -> Seq<char> {
    "specs.objects["@ + spec_dec(i) + "]"@
}

/// The document path of the `i`-th object's model mapping.
pub open spec fn spec_model_ctx(i: int) -> Seq<char> {
    spec_object_ctx(i) + ".model"@
}

/// The document path of the `i`-th object's type tag.
pub open spec fn spec_type_ctx(i: int) -> Seq<char> {
    spec_object_ctx(i) + ".model.type"@
}

/// The document path of the `i`-th object's transform mapping.
pub open spec fn spec_transform_ctx(i: int) -> Seq<char> {
    spec_object_ctx(i) + ".model.transform"@
}

pub(crate) fn object_ctx(i: u64) -> (r: String)
    ensures
        r@ == spec_object_ctx(i as int),
{
    let mut s = "specs.objects[".to_owned();
    s.append(u64_to_string(i).as_str());
    s.append("]");
    s
}

/// What decoding the `metadata` mapping yields: its three string fields,
/// checked in order; absent and mistyped keys are told apart.
pub open spec fn spec_decode_metadata(entries: Seq<(Yaml, Yaml)>) -> Result<
    WorldMetadataView,
    ErrorView,
> {
    let world_format = spec_string_field(entries, "world_format"@, "metadata"@);
    let name = spec_string_field(entries, "name"@, "metadata"@);
    let version = spec_string_field(entries, "version"@, "metadata"@);
    if world_format is Err {
        Err(world_format->Err_0)
    } else if name is Err {
        Err(name->Err_0)
    } else if version is Err {
        Err(version->Err_0)
    } else {
        Ok(
            WorldMetadataView {
                world_format: world_format->Ok_0@,
                name: name->Ok_0@,
                version: version->Ok_0@,
            },
        )
    }
}

/// Decodes the `metadata` mapping.
pub fn decode_metadata(entries: &Vec<(Yaml, Yaml)>) -> (r: Result<
    WorldMetadata,
    SpanErr<WorldLoadingError>,
>)
    ensures
        match r {
            Ok(m) => spec_decode_metadata(entries@) == Ok::<WorldMetadataView, ErrorView>(m@),
            Err(e) => spec_decode_metadata(entries@) matches Err(ev) && e.error@ == ev,
        },
{
    let world_format = match string_field(entries, "world_format", "metadata") {
        Ok(s) => s,
        Err(e) => {
            return Err(e);
        },
    };
    let name = match string_field(entries, "name", "metadata") {
        Ok(s) => s,
        Err(e) => {
            return Err(e);
        },
    };
    let version = match string_field(entries, "version", "metadata") {
        Ok(s) => s,
        Err(e) => {
            return Err(e);
        },
    };
    Ok(
        WorldMetadata {
            world_format: world_format.clone(),
            name: name.clone(),
            version: version.clone(),
        },
    )
}

/// What decoding the `spawnpoint` mapping yields: its five scalar fields,
/// checked in order.
pub open spec fn spec_decode_spawnpoint(entries: Seq<(Yaml, Yaml)>) -> Result<
    SpawnPoint,
    ErrorView,
> {
    let x = spec_number_field(entries, "x"@, "specs.spawnpoint"@);
    let y = spec_number_field(entries, "y"@, "specs.spawnpoint"@);
    let z = spec_number_field(entries, "z"@, "specs.spawnpoint"@);
    let pitch = spec_number_field(entries, "pitch"@, "specs.spawnpoint"@);
    let yaw = spec_number_field(entries, "yaw"@, "specs.spawnpoint"@);
    if x is Err {
        Err(x->Err_0)
    } else if y is Err {
        Err(y->Err_0)
    } else if z is Err {
        Err(z->Err_0)
    } else if pitch is Err {
        Err(pitch->Err_0)
    } else if yaw is Err {
        Err(yaw->Err_0)
    } else {
        Ok(
            SpawnPoint {
                x: x->Ok_0,
                y: y->Ok_0,
                z: z->Ok_0,
                pitch: pitch->Ok_0,
                yaw: yaw->Ok_0,
            },
        )
    }
}

/// Decodes the `spawnpoint` mapping.
pub fn decode_spawnpoint(entries: &Vec<(Yaml, Yaml)>) -> (r: Result<
    SpawnPoint,
    SpanErr<WorldLoadingError>,
>)
    ensures
        match r {
            Ok(sp) => spec_decode_spawnpoint(entries@) == Ok::<SpawnPoint, ErrorView>(sp),
            Err(e) => spec_decode_spawnpoint(entries@) matches Err(ev) && e.error@ == ev,
        },
{
    let x = match number_field(entries, "x", "specs.spawnpoint") {
        Ok(n) => n,
        Err(e) => {
            return Err(e);
        },
    };
    let y = match number_field(entries, "y", "specs.spawnpoint") {
        Ok(n) => n,
        Err(e) => {
            return Err(e);
        },
    };
    let z = match number_field(entries, "z", "specs.spawnpoint") {
        Ok(n) => n,
        Err(e) => {
            return Err(e);
        },
    };
    let pitch = match number_field(entries, "pitch", "specs.spawnpoint") {
        Ok(n) => n,
        Err(e) => {
            return Err(e);
        },
    };
    let yaw = match number_field(entries, "yaw", "specs.spawnpoint") {
        Ok(n) => n,
        Err(e) => {
            return Err(e);
        },
    };
    Ok(
        SpawnPoint {
            x: crate::raw::scalar_clone(x),
            y: crate::raw::scalar_clone(y),
            z: crate::raw::scalar_clone(z),
            pitch: crate::raw::scalar_clone(pitch),
            yaw: crate::raw::scalar_clone(yaw),
        },
    )
}

/// What decoding the `world_border` mapping yields: its six scalar fields,
/// checked in order. `min <= max` is deliberately not checked.
pub open spec fn spec_decode_border(entries: Seq<(Yaml, Yaml)>) -> Result<WorldBorder, ErrorView> {
    let x_min = spec_number_field(entries, "x_min"@, "specs.world_border"@);
    let x_max = spec_number_field(entries, "x_max"@, "specs.world_border"@);
    let y_min = spec_number_field(entries, "y_min"@, "specs.world_border"@);
    let y_max = spec_number_field(entries, "y_max"@, "specs.world_border"@);
    let z_min = spec_number_field(entries, "z_min"@, "specs.world_border"@);
    let z_max = spec_number_field(entries, "z_max"@, "specs.world_border"@);
    if x_min is Err {
        Err(x_min->Err_0)
    } else if x_max is Err {
        Err(x_max->Err_0)
    } else if y_min is Err {
        Err(y_min->Err_0)
    } else if y_max is Err {
        Err(y_max->Err_0)
    } else if z_min is Err {
        Err(z_min->Err_0)
    } else if z_max is Err {
        Err(z_max->Err_0)
    } else {
        Ok(
            WorldBorder {
                x_min: x_min->Ok_0,
                x_max: x_max->Ok_0,
                y_min: y_min->Ok_0,
                y_max: y_max->Ok_0,
                z_min: z_min->Ok_0,
                z_max: z_max->Ok_0,
            },
        )
    }
}

/// Decodes the `world_border` mapping.
pub fn decode_border(entries: &Vec<(Yaml, Yaml)>) -> (r: Result<
    WorldBorder,
    SpanErr<WorldLoadingError>,
>)
    ensures
        match r {
            Ok(wb) => spec_decode_border(entries@) == Ok::<WorldBorder, ErrorView>(wb),
            Err(e) => spec_decode_border(entries@) matches Err(ev) && e.error@ == ev,
        },
{
    let x_min = match number_field(entries, "x_min", "specs.world_border") {
        Ok(n) => n,
        Err(e) => {
            return Err(e);
        },
    };
    let x_max = match number_field(entries, "x_max", "specs.world_border") {
        Ok(n) => n,
        Err(e) => {
            return Err(e);
        },
    };
    let y_min = match number_field(entries, "y_min", "specs.world_border") {
        Ok(n) => n,
        Err(e) => {
            return Err(e);
        },
    };
    let y_max = match number_field(entries, "y_max", "specs.world_border") {
        Ok(n) => n,
        Err(e) => {
            return Err(e);
        },
    };
    let z_min = match number_field(entries, "z_min", "specs.world_border") {
        Ok(n) => n,
        Err(e) => {
            return Err(e);
        },
    };
    let z_max = match number_field(entries, "z_max", "specs.world_border") {
        Ok(n) => n,
        Err(e) => {
            return Err(e);
        },
    };
    Ok(
        WorldBorder {
            x_min: crate::raw::scalar_clone(x_min),
            x_max: crate::raw::scalar_clone(x_max),
            y_min: crate::raw::scalar_clone(y_min),
            y_max: crate::raw::scalar_clone(y_max),
            z_min: crate::raw::scalar_clone(z_min),
            z_max: crate::raw::scalar_clone(z_max),
        },
    )
}

/// What decoding the `i`-th element of `specs.objects` yields. The element
/// must be a mapping with a `name` and a `model`; the model must carry a
/// string `type` tag (else the tag itself is malformed —
/// `InvalidObjectType`), a string `path`, and a `transform` mapping decoded
/// by the transform codec. Any string passes as a type tag here: whether it
/// is supported is decided at load planning, not at decode.
pub open spec fn spec_decode_object(y: Yaml, i: int) -> Result<WorldObjectView, ErrorView> {
    match y {
        Yaml::Mapping(es) => {
            let entries = es@;
            let name = spec_string_field(entries, "name"@, spec_object_ctx(i));
            let model = spec_mapping_field(entries, "model"@, spec_object_ctx(i));
            if name is Err {
                Err(name->Err_0)
            } else if model is Err {
                Err(model->Err_0)
            } else {
                let mes = model->Ok_0;
                match spec_lookup(mes, "type"@) {
                    Some(Yaml::Str(ty)) => {
                        let path = spec_string_field(mes, "path"@, spec_model_ctx(i));
                        if path is Err {
                            Err(path->Err_0)
                        } else {
                            match spec_lookup(mes, "transform"@) {
                                None => Err(
                                    ErrorView::KeyMissing("transform"@, spec_model_ctx(i)),
                                ),
                                Some(tv) => match tv {
                                    Yaml::Mapping(tes) => {
                                        let t = spec_decode_transform(tes@, spec_transform_ctx(i));
                                        if t is Err {
                                            Err(t->Err_0)
                                        } else {
                                            Ok(
                                                WorldObjectView {
                                                    name: name->Ok_0@,
                                                    model: Sutera3DModelView {
                                                        model_type: ty@,
                                                        path: path->Ok_0@,
                                                        transform: t->Ok_0,
                                                    },
                                                },
                                            )
                                        }
                                    },
                                    _ => Err(
                                        ErrorView::WrongType("transform"@, spec_model_ctx(i)),
                                    ),
                                },
                            }
                        }
                    },
                    _ => Err(ErrorView::InvalidObjectType(spec_type_ctx(i))),
                }
            }
        },
        _ => Err(ErrorView::WrongType("objects["@ + spec_dec(i) + "]"@, "specs"@)),
    }
}

/// Decodes one element of `specs.objects`.
pub fn decode_object(y: &Yaml, i: u64) -> (r: Result<WorldObject, SpanErr<WorldLoadingError>>)
    ensures
        match r {
            Ok(o) => spec_decode_object(*y, i as int) == Ok::<WorldObjectView, ErrorView>(o@),
            Err(e) => spec_decode_object(*y, i as int) matches Err(ev) && e.error@ == ev,
        },
{
    let entries = match y {
        Yaml::Mapping(es) => es,
        _ => {
            let mut field = "objects[".to_owned();
            field.append(u64_to_string(i).as_str());
            field.append("]");
            return Err(
                SpanErr::from(WorldLoadingError::WrongType(field, "specs".to_owned())),
            );
        },
    };
    let ctx = object_ctx(i);
    let name = match string_field(entries, "name", ctx.as_str()) {
        Ok(s) => s,
        Err(e) => {
            return Err(e);
        },
    };
    let model = match mapping_field(entries, "model", ctx.as_str()) {
        Ok(es) => es,
        Err(e) => {
            return Err(e);
        },
    };
    let model_type = match yaml_lookup(model, "type") {
        Some(Yaml::Str(ty)) => ty,
        _ => {
            let mut type_ctx = object_ctx(i);
            type_ctx.append(".model.type");
            return Err(SpanErr::from(WorldLoadingError::InvalidObjectType(type_ctx)));
        },
    };
    let mut model_ctx = object_ctx(i);
    model_ctx.append(".model");
    let path = match string_field(model, "path", model_ctx.as_str()) {
        Ok(s) => s,
        Err(e) => {
            return Err(e);
        },
    };
    let tentries = match yaml_lookup(model, "transform") {
        None => {
            return Err(
                SpanErr::from(WorldLoadingError::KeyMissing("transform".to_owned(), model_ctx)),
            );
        },
        Some(Yaml::Mapping(tes)) => tes,
        Some(_) => {
            return Err(
                SpanErr::from(WorldLoadingError::WrongType("transform".to_owned(), model_ctx)),
            );
        },
    };
    let mut transform_ctx = object_ctx(i);
    transform_ctx.append(".model.transform");
    let transform = match decode_transform(tentries, transform_ctx.as_str()) {
        Ok(t) => t,
        Err(e) => {
            return Err(e);
        },
    };
    Ok(
        WorldObject {
            name: name.clone(),
            model: Sutera3DModel { model_type: model_type.clone(), path: path.clone(), transform },
        },
    )
}

/// What decoding the tail of the object list from position `i` on yields:
/// the decoded objects in document order, or the first element's error.
pub open spec fn spec_decode_objects(items: Seq<Yaml>, i: int) -> Result<
    Seq<WorldObjectView>,
    ErrorView,
>
    decreases items.len() - i,
{
    if i < 0 || i >= items.len() {
        Ok(Seq::empty())
    } else {
        match spec_decode_object(items[i], i) {
            Err(e) => Err(e),
            Ok(o) => match spec_decode_objects(items, i + 1) {
                Err(e) => Err(e),
                Ok(rest) => Ok(seq![o] + rest),
            },
        }
    }
}

/// Decodes the whole object list, in document order, failing on the first
/// bad element.
pub fn decode_objects(items: &Vec<Yaml>) -> (r: Result<
    Vec<WorldObject>,
    SpanErr<WorldLoadingError>,
>)
    ensures
        match r {
            Ok(os) => spec_decode_objects(items@, 0) == Ok::<Seq<WorldObjectView>, ErrorView>(
                os@.map_values(|o: WorldObject| o@),
            ),
            Err(e) => spec_decode_objects(items@, 0) matches Err(ev) && e.error@ == ev,
        },
{
    let mut out: Vec<WorldObject> = Vec::new();
    let n = items.len();
    proof {
        assert(Seq::<WorldObject>::empty().map_values(|o: WorldObject| o@)
            =~= Seq::<WorldObjectView>::empty());
    }
    for i in 0..n
        invariant
            n == items@.len(),
            out@.len() == i,
            match spec_decode_objects(items@, i as int) {
                Ok(rest) => spec_decode_objects(items@, 0) == Ok::<Seq<WorldObjectView>, ErrorView>(
                    out@.map_values(|o: WorldObject| o@) + rest,
                ),
                Err(e) => spec_decode_objects(items@, 0) == Err::<Seq<WorldObjectView>, ErrorView>(
                    e,
                ),
            },
    {
        match decode_object(&items[i], i as u64) {
            Err(e) => {
                return Err(e);
            },
            Ok(o) => {
                proof {
                    let f = |o: WorldObject| o@;
                    assert(out@.push(o).map_values(f) =~= out@.map_values(f).push(o@));
                    match spec_decode_objects(items@, i + 1 as int) {
                        Ok(rest) => {
                            assert(out@.map_values(f) + (seq![o@] + rest) =~= out@.map_values(
                                f,
                            ).push(o@) + rest);
                        },
                        Err(_) => {},
                    }
                }
                out.push(o);
            },
        }
    }
    proof {
        assert(out@.map_values(|o: WorldObject| o@) + Seq::<WorldObjectView>::empty()
            =~= out@.map_values(|o: WorldObject| o@));
    }
    Ok(out)
}

/// What decoding the `specs` mapping yields: the spawn point, the world
/// border, then the object list, which must be a sequence before any
/// element is looked at.
pub open spec fn spec_decode_specs(entries: Seq<(Yaml, Yaml)>) -> Result<
    WorldSpecsView,
    ErrorView,
> {
    let spawn = spec_mapping_field(entries, "spawnpoint"@, "specs"@);
    if spawn is Err {
        Err(spawn->Err_0)
    } else {
        let sp = spec_decode_spawnpoint(spawn->Ok_0);
        if sp is Err {
            Err(sp->Err_0)
        } else {
            let border = spec_mapping_field(entries, "world_border"@, "specs"@);
            if border is Err {
                Err(border->Err_0)
            } else {
                let wb = spec_decode_border(border->Ok_0);
                if wb is Err {
                    Err(wb->Err_0)
                } else {
                    let objects = spec_sequence_field(entries, "objects"@, "specs"@);
                    if objects is Err {
                        Err(objects->Err_0)
                    } else {
                        let os = spec_decode_objects(objects->Ok_0, 0);
                        if os is Err {
                            Err(os->Err_0)
                        } else {
                            Ok(
                                WorldSpecsView {
                                    spawnpoint: sp->Ok_0,
                                    world_border: wb->Ok_0,
                                    objects: os->Ok_0,
                                },
                            )
                        }
                    }
                }
            }
        }
    }
}

/// Decodes the `specs` mapping.
pub fn decode_specs(entries: &Vec<(Yaml, Yaml)>) -> (r: Result<
    WorldSpecs,
    SpanErr<WorldLoadingError>,
>)
    ensures
        match r {
            Ok(s) => spec_decode_specs(entries@) == Ok::<WorldSpecsView, ErrorView>(s@),
            Err(e) => spec_decode_specs(entries@) matches Err(ev) && e.error@ == ev,
        },
{
    let spawn = match mapping_field(entries, "spawnpoint", "specs") {
        Ok(es) => es,
        Err(e) => {
            return Err(e);
        },
    };
    let spawnpoint = match decode_spawnpoint(spawn) {
        Ok(sp) => sp,
        Err(e) => {
            return Err(e);
        },
    };
    let border = match mapping_field(entries, "world_border", "specs") {
        Ok(es) => es,
        Err(e) => {
            return Err(e);
        },
    };
    let world_border = match decode_border(border) {
        Ok(wb) => wb,
        Err(e) => {
            return Err(e);
        },
    };
    let items = match sequence_field(entries, "objects", "specs") {
        Ok(vs) => vs,
        Err(e) => {
            return Err(e);
        },
    };
    let objects = match decode_objects(items) {
        Ok(os) => os,
        Err(e) => {
            return Err(e);
        },
    };
    Ok(WorldSpecs { spawnpoint, world_border, objects })
}

/// What decoding a whole document yields. A document that is not a mapping
/// at all is a `ParseFailed`; then `metadata` and `specs` are decoded in
/// that order.
pub open spec fn spec_decode_world(y: Yaml) -> Result<SuteraWorldView, ErrorView> {
    match y {
        Yaml::Mapping(top) => {
            let meta_entries = spec_mapping_field(top@, "metadata"@, "document"@);
            if meta_entries is Err {
                Err(meta_entries->Err_0)
            } else {
                let metadata = spec_decode_metadata(meta_entries->Ok_0);
                if metadata is Err {
                    Err(metadata->Err_0)
                } else {
                    let specs_entries = spec_mapping_field(top@, "specs"@, "document"@);
                    if specs_entries is Err {
                        Err(specs_entries->Err_0)
                    } else {
                        let specs = spec_decode_specs(specs_entries->Ok_0);
                        if specs is Err {
                            Err(specs->Err_0)
                        } else {
                            Ok(
                                SuteraWorldView {
                                    metadata: metadata->Ok_0,
                                    specs: specs->Ok_0,
                                },
                            )
                        }
                    }
                }
            }
        },
        _ => Err(ErrorView::ParseFailed("world document is not a mapping"@)),
    }
}

/// Decodes a parsed document into the typed world model, or fails with the
/// first structural error, top-down.
pub fn decode_world(y: &Yaml) -> (r: Result<SuteraWorldYamlFormat, SpanErr<WorldLoadingError>>)
    ensures
        match r {
            Ok(d) => spec_decode_world(*y) == Ok::<SuteraWorldView, ErrorView>(d@),
            Err(e) => spec_decode_world(*y) matches Err(ev) && e.error@ == ev,
        },
{
    let top = match y {
        Yaml::Mapping(es) => es,
        _ => {
            return Err(
                SpanErr::from(
                    WorldLoadingError::ParseFailed("world document is not a mapping".to_owned()),
                ),
            );
        },
    };
    let meta_entries = match mapping_field(top, "metadata", "document") {
        Ok(es) => es,
        Err(e) => {
            return Err(e);
        },
    };
    let metadata = match decode_metadata(meta_entries) {
        Ok(m) => m,
        Err(e) => {
            return Err(e);
        },
    };
    let specs_entries = match mapping_field(top, "specs", "document") {
        Ok(es) => es,
        Err(e) => {
            return Err(e);
        },
    };
    let specs = match decode_specs(specs_entries) {
        Ok(s) => s,
        Err(e) => {
            return Err(e);
        },
    };
    Ok(SuteraWorldYamlFormat { metadata, specs })
}

/// An empty object list decodes successfully, to a world with nothing to
/// load or attach.
pub proof fn lemma_empty_object_list(items: Seq<Yaml>)
    requires
        items.len() == 0,
    ensures
        spec_decode_objects(items, 0) == Ok::<Seq<WorldObjectView>, ErrorView>(Seq::empty()),
{
}

/// A document that is not a mapping at all decodes to `ParseFailed`.
pub proof fn lemma_non_mapping_is_parse_failure(y: Yaml)
    requires
        !(y matches Yaml::Mapping(_)),
    ensures
        spec_decode_world(y) == Err::<SuteraWorldView, ErrorView>(
            ErrorView::ParseFailed("world document is not a mapping"@),
        ),
{
}

} // verus!
