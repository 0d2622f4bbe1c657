//! Material-free variant of the mesh parser: the same line grammar and
//! triangulation as [`crate::model`], but the parsed corners carry only
//! position and normal text. Material switch lines are read and have no
//! effect on the result.

use crate::model::{
    copy_triple, spec_load_model, spec_parse_indices, Model as FullModel, ModelError, TokenTriple,
    TripleView, VertexView as FullVertexView,
};
use vstd::prelude::*;
use vstd::string::*;

verus! {

/// One corner of a triangle: position and normal coordinate text.
#[derive(Debug)]
pub struct Vertex {
    pub position: TokenTriple,
    pub normal: TokenTriple,
}

/// The mathematical value of a [`Vertex`]: position and normal.
pub type VertexView = (TripleView, TripleView);

impl View for Vertex {
    type V = VertexView;

    open spec fn view(&self) -> VertexView {
        (self.position@, self.normal@)
    }
}

/// A triangulated mesh: three consecutive corners form one triangle.
#[derive(Debug)]
pub struct Model {
    pub vertices: Vec<Vertex>,
}

impl View for Model {
    type V = Seq<VertexView>;

    open spec fn view(&self) -> Seq<VertexView> {
        Seq::new(self.vertices@.len(), |i: int| self.vertices@[i]@)
    }
}

/// The corners of the full parse with their material classes dropped.
pub open spec fn spec_strip_materials(vs: Seq<FullVertexView>) -> Seq<VertexView> {
    Seq::new(vs.len(), |i: int| (vs[i].0, vs[i].1))
}

/// The triangulated mesh the text denotes: the corners of
/// [`spec_load_model`] without their material classes, or the same
/// rejection.
pub fn load_model(model_content: &str) -> (r: Result<Model, ModelError>)
    ensures
        ({
            let expected = spec_load_model(model_content.spec_bytes());
            match expected {
                Ok(vs) => r is Ok && r->Ok_0@ == spec_strip_materials(vs),
                Err(e) => r == Err::<Model, ModelError>(e),
            }
        }),
{
    match crate::model::load_model(model_content) {
        Ok(full) => {
            let mut vertices: Vec<Vertex> = Vec::new();
            let n = full.vertices.len();
            let mut i: usize = 0;
            while i < n
                invariant
                    i <= n,
                    n == full.vertices@.len(),
                    vertices@.len() == i,
                    forall|k: int|
                        0 <= k < i ==> #[trigger] vertices@[k]@ == (
                        full.vertices@[k].position@,
                        full.vertices@[k].normal@,
                        ),
                decreases n - i,
            {
                let v = Vertex {
                    position: copy_triple(&full.vertices[i].position),
                    normal: copy_triple(&full.vertices[i].normal),
                };
                vertices.push(v);
                i = i + 1;
            }
            let m = Model { vertices };
            proof {
                assert(m@ =~= spec_strip_materials(full@));
            }
            Ok(m)
        },
        Err(e) => Err(e),
    }
}

/// The pair of table indices a face corner field denotes, as
/// [`spec_parse_indices`] describes.
pub fn parse_indices(index: &str) -> (r: Option<(usize, usize)>)
    ensures
        ({
            let p = spec_parse_indices(index.spec_bytes());
            match p {
                Some(pair) => r == Some((pair.0 as usize, pair.1 as usize)),
                None => r is None,
            }
        }),
{
    crate::model::parse_indices(index)
}

} // verus!
