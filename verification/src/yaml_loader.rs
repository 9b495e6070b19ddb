//! The load pipeline: source text to a typed world, then a strict,
//! in-order plan of per-object load and placement work.
//!
//! The pipeline is linear and fail-fast: parse, decode, then one object at
//! a time. Any failure is terminal for the whole load; objects placed
//! before the failing one are not rolled back. The host performs the
//! outside work — reading the file, loading assets, touching the scene
//! graph — and every decision about that work is made here, on plain
//! values.

use vstd::prelude::*;
use crate::error::{ErrorView, SpanErr};
pub use crate::error::WorldLoadingError;
use crate::gltf::path_solver;
use crate::raw::{parse_document, str_eq, Yaml};
use crate::transform::{spec_transform_of, SuteraTransform};
use crate::world_format::{
    decode_world, object_ctx, spec_decode_world, spec_model_ctx, SuteraWorldYamlFormat,
    WorldObject,
};

verus! {

/// An error kind that document decoding can produce: everything except the
/// asset-stage kinds and the file-stage kinds.
pub open spec fn is_decode_error(e: ErrorView) -> bool {
    ||| e matches ErrorView::ParseFailed(_)
    ||| e matches ErrorView::KeyMissing(_, _)
    ||| e matches ErrorView::WrongType(_, _)
    ||| e matches ErrorView::InvalidObjectType(_)
}

proof fn lemma_object_decode_error_kinds(y: Yaml, i: int)
    ensures
        crate::world_format::spec_decode_object(y, i) matches Err(ev) ==> is_decode_error(ev),
{
}

proof fn lemma_objects_decode_error_kinds(items: Seq<Yaml>, i: int)
    ensures
        crate::world_format::spec_decode_objects(items, i) matches Err(ev) ==> is_decode_error(
            ev,
        ),
    decreases items.len() - i,
{
    if 0 <= i < items.len() {
        lemma_object_decode_error_kinds(items[i], i);
        lemma_objects_decode_error_kinds(items, i + 1);
    }
}

/// Every error the document decoder can return is a structural one:
/// `ParseFailed`, `KeyMissing`, `WrongType` or `InvalidObjectType` — never
/// an asset-stage or file-stage kind.
pub proof fn lemma_world_decode_error_kinds(y: Yaml)
    ensures
        spec_decode_world(y) matches Err(ev) ==> is_decode_error(ev),
{
    match y {
        Yaml::Mapping(top) => {
            match crate::raw::spec_mapping_field(top@, "specs"@, "document"@) {
                Ok(entries) => {
                    match crate::raw::spec_sequence_field(entries, "objects"@, "specs"@) {
                        Ok(items) => {
                            lemma_objects_decode_error_kinds(items, 0);
                        },
                        Err(_) => {},
                    }
                },
                Err(_) => {},
            }
        },
        _ => {},
    }
}

/// Parses and decodes world source text in one pass: the whole decode
/// stage.
///
/// The outcome is a function of the text alone: success yields exactly the
/// decoding of the tree the text denotes, and is owed whenever the text
/// parses, fits the schema's shape and decodes; a parse-stage failure is
/// `ParseFailed` with that stage's reason; any other failure is the
/// decoder's own, structural error — never an asset- or file-staged kind.
pub fn decode_world_source(source: &str) -> (r: Result<
    SuteraWorldYamlFormat,
    SpanErr<WorldLoadingError>,
>)
    ensures
        r matches Err(e) ==> is_decode_error(e.error@),
        match r {
            Ok(w) => (exists|y: Yaml|
                #[trigger] crate::raw::parse_yields(source@, y) && spec_decode_world(y) == Ok::<
                    crate::world_format::SuteraWorldView,
                    ErrorView,
                >(w@)),
            Err(e) => {
                ||| (e.error@ matches ErrorView::ParseFailed(m) && crate::raw::parse_fails_with(
                    source@,
                    m,
                ))
                ||| (exists|y: Yaml|
                    #[trigger] crate::raw::parse_yields(source@, y) && spec_decode_world(y)
                        == Err::<crate::world_format::SuteraWorldView, ErrorView>(e.error@))
            },
        },
{
    let y = match parse_document(source) {
        Ok(y) => y,
        Err(e) => {
            return Err(e);
        },
    };
    proof {
        lemma_world_decode_error_kinds(y);
    }
    decode_world(&y)
}

/// The work the host must do for one recognized object: open the asset at
/// the resolved path, generate its subtree, apply the transform, attach.
#[derive(Debug)]
pub struct ObjectPlan {
    pub name: String,
    pub resolved_path: String,
    pub transform: SuteraTransform,
}

/// One step of a load session: either a plan for the next object, or the
/// end of the document.
#[derive(Debug)]
pub enum LoadStep {
    Request(ObjectPlan),
    Done,
}

/// Walks a decoded world's objects in document order, handing out one
/// [`ObjectPlan`] per recognized object and failing fast on the first bad
/// type tag. Objects before the failure keep whatever the host already did
/// for them: nothing is rolled back.
pub struct LoadSession {
    objects: Vec<WorldObject>,
    next: usize,
}

impl LoadSession {
    /// The objects the session walks, in document order.
    pub closed spec fn spec_objects(self) -> Seq<WorldObject> {
        self.objects@
    }

    /// How many leading objects have been planned already.
    pub closed spec fn spec_next(self) -> int {
        self.next as int
    }

    /// The session's invariant: the cursor never passes the end.
    pub open spec fn wf(self) -> bool {
        self.spec_next() <= self.spec_objects().len()
    }

    /// Starts a load session over a decoded world.
    pub fn new(doc: SuteraWorldYamlFormat) -> (r: LoadSession)
        ensures
            r.wf(),
            r.spec_objects() == doc.specs.objects@,
            r.spec_next() == 0,
    {
        LoadSession { objects: doc.specs.objects, next: 0 }
    }

    /// Plans the next object, in document order.
    ///
    /// Past the last object, the step is `Done`. A `gltf` object advances
    /// the cursor and yields its plan: the path resolved under the fixed
    /// mount prefix and the decoded transform. An empty type tag is a
    /// missing `type` field; any other tag is recognized but unsupported.
    /// On an error the cursor stays, and the whole load is over.
    pub fn next_step(&mut self) -> (r: Result<LoadStep, SpanErr<WorldLoadingError>>)
        requires
            old(self).wf(),
        ensures
            final(self).wf(),
            final(self).spec_objects() == old(self).spec_objects(),
            ({
                let i = old(self).spec_next();
                let objs = old(self).spec_objects();
                if i == objs.len() {
                    &&& r matches Ok(s) && s is Done
                    &&& final(self).spec_next() == i
                } else {
                    let m = objs[i].model;
                    if m.model_type@ == "gltf"@ {
                        &&& r matches Ok(s) && s matches LoadStep::Request(p)
                            && p.name@ == objs[i].name@
                            && p.resolved_path@ == "res://models/"@ + m.path@
                            && p.transform == spec_transform_of(m.transform)
                        &&& final(self).spec_next() == i + 1
                    } else if m.model_type@.len() == 0 {
                        &&& r matches Err(e) && e.error@ == ErrorView::KeyMissing(
                            "type"@,
                            spec_model_ctx(i),
                        )
                        &&& final(self).spec_next() == i
                    } else {
                        &&& r matches Err(e) && e.error@ == ErrorView::UnsupportedObjectType(
                            m.model_type@,
                        )
                        &&& final(self).spec_next() == i
                    }
                }
            }),
    {
        let i = self.next;
        if i == self.objects.len() {
            return Ok(LoadStep::Done);
        }
        let obj = &self.objects[i];
        if str_eq(obj.model.model_type.as_str(), "gltf") {
            let plan = ObjectPlan {
                name: obj.name.clone(),
                resolved_path: path_solver(obj.model.path.as_str()),
                transform: obj.model.transform.to_transform(),
            };
            self.next = i + 1;
            Ok(LoadStep::Request(plan))
        } else if obj.model.model_type.as_str().is_empty() {
            let mut ctx = object_ctx(i as u64);
            ctx.append(".model");
            Err(SpanErr::from(WorldLoadingError::KeyMissing("type".to_owned(), ctx)))
        } else {
            Err(
                SpanErr::from(
                    WorldLoadingError::UnsupportedObjectType(obj.model.model_type.clone()),
                ),
            )
        }
    }
}

/// Classifies the host's attempt to open the world file: a path that
/// cannot be opened is `InvalidPath` carrying that path.
pub fn on_file_open(path: &str, opened: bool) -> (r: Result<(), SpanErr<WorldLoadingError>>)
    ensures
        r is Ok <==> opened,
        !opened ==> (r matches Err(e) && e.error@ == ErrorView::InvalidPath(path@)),
{
    if opened {
        Ok(())
    } else {
        Err(SpanErr::from(WorldLoadingError::InvalidPath(path.to_owned())))
    }
}

/// Classifies the host's attempt to read the opened world file: content
/// that cannot be read is `FileReadFailed` with the host's reason and the
/// path.
pub fn on_file_read(path: &str, read: bool, reason: &str) -> (r: Result<
    (),
    SpanErr<WorldLoadingError>,
>)
    ensures
        r is Ok <==> read,
        !read ==> (r matches Err(e) && e.error@ == ErrorView::FileReadFailed(reason@, path@)),
{
    if read {
        Ok(())
    } else {
        Err(
            SpanErr::from(
                WorldLoadingError::FileReadFailed(reason.to_owned(), path.to_owned()),
            ),
        )
    }
}

/// Classifies the host loader's verdict on one resolved asset path: a
/// refusal is `AssetOpenFailed` carrying that path and the host's reason.
pub fn on_asset_open(resolved_path: &str, opened: bool, reason: &str) -> (r: Result<
    (),
    SpanErr<WorldLoadingError>,
>)
    ensures
        r is Ok <==> opened,
        !opened ==> (r matches Err(e) && e.error@ == ErrorView::AssetOpenFailed(
            resolved_path@,
            reason@,
        )),
{
    if opened {
        Ok(())
    } else {
        Err(
            SpanErr::from(
                WorldLoadingError::AssetOpenFailed(resolved_path.to_owned(), reason.to_owned()),
            ),
        )
    }
}

/// Classifies scene generation for a loaded asset: no usable subtree is
/// `SceneGenerationFailed` with the host's reason.
pub fn on_scene_generation(generated: bool, reason: &str) -> (r: Result<
    (),
    SpanErr<WorldLoadingError>,
>)
    ensures
        r is Ok <==> generated,
        !generated ==> (r matches Err(e) && e.error@ == ErrorView::SceneGenerationFailed(
            reason@,
        )),
{
    if generated {
        Ok(())
    } else {
        Err(SpanErr::from(WorldLoadingError::SceneGenerationFailed(reason.to_owned())))
    }
}

} // verus!
