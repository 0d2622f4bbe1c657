//! Mesh text parser: turns the line-oriented mesh description (points,
//! normal directions, material switches and triangular or quadrilateral
//! faces) into a flat triangle list. Quadrilaterals are split into two
//! triangles along the diagonal from their first to their third corner.
//!
//! Numeric coordinate fields are carried through as the text found in
//! the source; the host converts them to its machine number format when
//! it builds vertex buffers. Face index fields are resolved here, so a
//! parsed model never refers outside its own tables.

use crate::text::{
    lines_bytes, parse_usize_bytes, spec_lines, spec_parse_usize, spec_split, split_bytes,
    views_of,
};
use vstd::prelude::*;
use vstd::slice::slice_to_vec;
use vstd::string::*;

verus! {

/// Space byte: the field separator within a line.
pub const SPACE: u8 = 32;

/// Slash byte: the separator within a face corner field.
pub const SLASH: u8 = 47;

/// The three coordinate fields of one point or direction, kept as the
/// numeric text found in the source.
#[derive(Debug)]
pub struct TokenTriple {
    pub x: Vec<u8>,
    pub y: Vec<u8>,
    pub z: Vec<u8>,
}

/// The mathematical value of a [`TokenTriple`]: its three fields as byte
/// sequences.
pub type TripleView = (Seq<u8>, Seq<u8>, Seq<u8>);

impl View for TokenTriple {
    type V = TripleView;

    open spec fn view(&self) -> TripleView {
        (self.x@, self.y@, self.z@)
    }
}

/// One corner of a triangle: position and normal coordinate text, and
/// the material class in force when its face was declared.
#[derive(Debug)]
pub struct Vertex {
    pub position: TokenTriple,
    pub normal: TokenTriple,
    pub material: u32,
}

/// The mathematical value of a [`Vertex`]: position, normal, material.
pub type VertexView = (TripleView, TripleView, u32);

impl View for Vertex {
    type V = VertexView;

    open spec fn view(&self) -> VertexView {
        (self.position@, self.normal@, self.material)
    }
}

/// The element-wise values of a sequence of token triples.
pub open spec fn triples_view(ts: Seq<TokenTriple>) -> Seq<TripleView> {
    Seq::new(ts.len(), |i: int| ts[i]@)
}

/// The element-wise values of a sequence of vertices.
pub open spec fn vertices_view(vs: Seq<Vertex>) -> Seq<VertexView> {
    Seq::new(vs.len(), |i: int| vs[i]@)
}

/// A triangulated mesh: three consecutive corners form one triangle.
#[derive(Debug)]
pub struct Model {
    pub vertices: Vec<Vertex>,
}

impl View for Model {
    type V = Seq<VertexView>;

    open spec fn view(&self) -> Seq<VertexView> {
        vertices_view(self.vertices@)
    }
}

/// Why a mesh text was rejected.
#[derive(Debug, Clone, Copy, PartialEq, Eq, Structural)]
pub enum ModelError {
    /// A face corner field is not two usable numbers separated by
    /// slashes.
    MalformedFaceIndex,
    /// A face corner refers to a point or direction that the text has
    /// not declared.
    IndexOutOfRange,
}

/// The material class a material name selects: reflective parts are
/// class one, everything else class zero.
pub open spec fn spec_material_class(name: Seq<u8>) -> u32 {
    if name == "BMW_E30_M3_WINDOWS".spec_bytes() || name == "BMW_E30_M3_CHROME".spec_bytes()
        || name == "BMW_E30_M3_LENS".spec_bytes() || name == "BMW_E30_M3_SIDE_MIRROR".spec_bytes()
        || name == "BMW_E30_M3_RIM".spec_bytes() || name == "BMW_E30_M3_EMBLEMS".spec_bytes()
        || name == "BMW_E30_M3_HEADLIGHT_REFLECTOR".spec_bytes()
        || name == "BMW_E30_M3_TAILLIGHT_REFLECTOR".spec_bytes()
        || name == "BMW_E30_M3_PLASTIC".spec_bytes() || name == "Brake_Disc".spec_bytes()
        || name == "Brembo_Calipers".spec_bytes() || name == "Logo_Plane".spec_bytes() {
        1
    } else {
        0
    }
}

/// Whether two byte slices hold the same bytes.
fn bytes_eq(a: &[u8], b: &[u8]) -> (r: bool)
    ensures
        r == (a@ == b@),
{
    if a.len() != b.len() {
        return false;
    }
    let n = a.len();
    let mut i: usize = 0;
    while i < n
        invariant
            i <= n,
            n == a@.len() == b@.len(),
            forall|k: int| 0 <= k < i ==> a@[k] == b@[k],
        decreases n - i,
    {
        if a[i] != b[i] {
            return false;
        }
        i = i + 1;
    }
    proof {
        assert(a@ =~= b@);
    }
    true
}

/// The material class a material name selects, as
/// [`spec_material_class`] describes.
pub fn material_class(name: &[u8]) -> (r: u32)
    ensures
        r == spec_material_class(name@),
{
    if bytes_eq(name, "BMW_E30_M3_WINDOWS".as_bytes()) || bytes_eq(
        name,
        "BMW_E30_M3_CHROME".as_bytes(),
    ) || bytes_eq(name, "BMW_E30_M3_LENS".as_bytes()) || bytes_eq(
        name,
        "BMW_E30_M3_SIDE_MIRROR".as_bytes(),
    ) || bytes_eq(name, "BMW_E30_M3_RIM".as_bytes()) || bytes_eq(
        name,
        "BMW_E30_M3_EMBLEMS".as_bytes(),
    ) || bytes_eq(name, "BMW_E30_M3_HEADLIGHT_REFLECTOR".as_bytes()) || bytes_eq(
        name,
        "BMW_E30_M3_TAILLIGHT_REFLECTOR".as_bytes(),
    ) || bytes_eq(name, "BMW_E30_M3_PLASTIC".as_bytes()) || bytes_eq(
        name,
        "Brake_Disc".as_bytes(),
    ) || bytes_eq(name, "Brembo_Calipers".as_bytes()) || bytes_eq(
        name,
        "Logo_Plane".as_bytes(),
    ) {
        1
    } else {
        0
    }
}

/// The pair of table indices a face corner field denotes: two one-based
/// numbers (position and normal, the first and third of its
/// slash-separated parts) taken to zero-based, or nothing if either part
/// is missing, not a number, or zero.
pub open spec fn spec_parse_indices(s: Seq<u8>) -> Option<(int, int)> {
    let parts = spec_split(s, SLASH);
    if parts.len() < 3 {
        None
    } else {
        let a = spec_parse_usize(parts[0]);
        let b = spec_parse_usize(parts[2]);
        if a is Some && b is Some && a->0 >= 1 && b->0 >= 1 {
            Some((a->0 - 1, b->0 - 1))
        } else {
            None
        }
    }
}

fn parse_indices_bytes(s: &[u8]) -> (r: Option<(usize, usize)>)
    ensures
        ({
            let p = spec_parse_indices(s@);
            match p {
                Some(pair) => r == Some((pair.0 as usize, pair.1 as usize)),
                None => r is None,
            }
        }),
{
    let parts = split_bytes(s, SLASH);
    if parts.len() < 3 {
        return None;
    }
    let a = parse_usize_bytes(parts[0].as_slice());
    let b = parse_usize_bytes(parts[2].as_slice());
    proof {
        assert(parts[0]@ == views_of(parts@)[0]);
        assert(parts[2]@ == views_of(parts@)[2]);
        crate::text::lemma_parse_usize_nonneg(parts[0]@);
        crate::text::lemma_parse_usize_nonneg(parts[2]@);
    }
    match (a, b) {
        (Some(av), Some(bv)) => {
            if av >= 1 && bv >= 1 {
                Some((av - 1, bv - 1))
            } else {
                None
            }
        },
        _ => None,
    }
}

/// The pair of table indices a face corner field denotes, as
/// [`spec_parse_indices`] describes.
pub fn parse_indices(index: &str) -> (r: Option<(usize, usize)>)
    ensures
        ({
            let p = spec_parse_indices(index.spec_bytes());
            match p {
                Some(pair) => r == Some((pair.0 as usize, pair.1 as usize)),
                None => r is None,
            }
        }),
{
    parse_indices_bytes(index.as_bytes())
}

/// The parser's running state: the point and direction tables declared
/// so far, the material class in force, and the triangle corners
/// emitted so far.
pub ghost struct ParseState {
    pub positions: Seq<TripleView>,
    pub normals: Seq<TripleView>,
    pub material: u32,
    pub vertices: Seq<VertexView>,
}

/// The state before any line: empty tables, material class zero, no
/// corners.
pub open spec fn spec_initial_state() -> ParseState {
    ParseState {
        positions: Seq::empty(),
        normals: Seq::empty(),
        material: 0,
        vertices: Seq::empty(),
    }
}

/// Whether a resolved corner index pair lies within the declared tables.
pub open spec fn spec_corner_ok(st: ParseState, idx: (int, int)) -> bool {
    0 <= idx.0 < st.positions.len() && 0 <= idx.1 < st.normals.len()
}

/// The corner a resolved index pair denotes under the current material.
pub open spec fn spec_corner(st: ParseState, idx: (int, int)) -> VertexView {
    (st.positions[idx.0], st.normals[idx.1], st.material)
}

/// A triangular face: three corner fields, resolved and emitted in
/// order. A corner field that does not parse rejects the face before
/// any index is looked up; then an index outside the tables rejects it.
pub open spec fn spec_face3(st: ParseState, t1: Seq<u8>, t2: Seq<u8>, t3: Seq<u8>) -> Result<
    ParseState,
    ModelError,
> {
    let i1 = spec_parse_indices(t1);
    let i2 = spec_parse_indices(t2);
    let i3 = spec_parse_indices(t3);
    if i1 is None || i2 is None || i3 is None {
        Err(ModelError::MalformedFaceIndex)
    } else if !spec_corner_ok(st, i1->0) || !spec_corner_ok(st, i2->0) || !spec_corner_ok(
        st,
        i3->0,
    ) {
        Err(ModelError::IndexOutOfRange)
    } else {
        Ok(
            ParseState {
                vertices: st.vertices + seq![
                    spec_corner(st, i1->0),
                    spec_corner(st, i2->0),
                    spec_corner(st, i3->0),
                ],
                ..st
            },
        )
    }
}

/// A quadrilateral face: four corner fields, split into the triangles
/// one-two-three and one-three-four, with the same rejection rules as a
/// triangular face.
pub open spec fn spec_face4(
    st: ParseState,
    t1: Seq<u8>,
    t2: Seq<u8>,
    t3: Seq<u8>,
    t4: Seq<u8>,
) -> Result<ParseState, ModelError> {
    let i1 = spec_parse_indices(t1);
    let i2 = spec_parse_indices(t2);
    let i3 = spec_parse_indices(t3);
    let i4 = spec_parse_indices(t4);
    if i1 is None || i2 is None || i3 is None || i4 is None {
        Err(ModelError::MalformedFaceIndex)
    } else if !spec_corner_ok(st, i1->0) || !spec_corner_ok(st, i2->0) || !spec_corner_ok(
        st,
        i3->0,
    ) || !spec_corner_ok(st, i4->0) {
        Err(ModelError::IndexOutOfRange)
    } else {
        Ok(
            ParseState {
                vertices: st.vertices + seq![
                    spec_corner(st, i1->0),
                    spec_corner(st, i2->0),
                    spec_corner(st, i3->0),
                    spec_corner(st, i1->0),
                    spec_corner(st, i3->0),
                    spec_corner(st, i4->0),
                ],
                ..st
            },
        )
    }
}

/// What one line does to the parser state. A point line (field `v` and
/// three coordinates) extends the point table; a direction line (`vn`)
/// the direction table; a material line (`usemtl` and a name) switches
/// the material class; a face line (`f` and three or four corners) emits
/// corners; every other line is ignored.
#[verifier::opaque]
pub open spec fn spec_line_step(st: ParseState, line: Seq<u8>) -> Result<ParseState, ModelError> {
    let toks = spec_split(line, SPACE);
    if toks.len() == 4 && toks[0] == "v".spec_bytes() {
        Ok(ParseState { positions: st.positions.push((toks[1], toks[2], toks[3])), ..st })
    } else if toks.len() == 4 && toks[0] == "vn".spec_bytes() {
        Ok(ParseState { normals: st.normals.push((toks[1], toks[2], toks[3])), ..st })
    } else if toks.len() == 2 && toks[0] == "usemtl".spec_bytes() {
        Ok(ParseState { material: spec_material_class(toks[1]), ..st })
    } else if toks.len() == 4 && toks[0] == "f".spec_bytes() {
        spec_face3(st, toks[1], toks[2], toks[3])
    } else if toks.len() == 5 && toks[0] == "f".spec_bytes() {
        spec_face4(st, toks[1], toks[2], toks[3], toks[4])
    } else {
        Ok(st)
    }
}

/// The corners a sequence of lines produces from a starting state, or
/// the rejection raised by the first bad line.
pub open spec fn spec_parse_model(lines: Seq<Seq<u8>>, st: ParseState) -> Result<
    Seq<VertexView>,
    ModelError,
> decreases lines.len(),
{
    if lines.len() == 0 {
        Ok(st.vertices)
    } else {
        match spec_line_step(st, lines[0]) {
            Ok(st2) => spec_parse_model(lines.drop_first(), st2),
            Err(e) => Err(e),
        }
    }
}

/// The mesh a whole text denotes: its lines folded over the initial
/// state.
pub open spec fn spec_load_model(content: Seq<u8>) -> Result<Seq<VertexView>, ModelError> {
    spec_parse_model(spec_lines(content), spec_initial_state())
}

struct Builder {
    positions: Vec<TokenTriple>,
    normals: Vec<TokenTriple>,
    material: u32,
    vertices: Vec<Vertex>,
}

impl View for Builder {
    type V = ParseState;

    closed spec fn view(&self) -> ParseState {
        ParseState {
            positions: triples_view(self.positions@),
            normals: triples_view(self.normals@),
            material: self.material,
            vertices: vertices_view(self.vertices@),
        }
    }
}

proof fn lemma_triples_view_push(ts: Seq<TokenTriple>, t: TokenTriple)
    ensures
        triples_view(ts.push(t)) == triples_view(ts).push(t@),
{
    assert(triples_view(ts.push(t)) =~= triples_view(ts).push(t@));
}

proof fn lemma_vertices_view_push(vs: Seq<Vertex>, v: Vertex)
    ensures
        vertices_view(vs.push(v)) == vertices_view(vs).push(v@),
{
    assert(vertices_view(vs.push(v)) =~= vertices_view(vs).push(v@));
}

fn copy_bytes(v: &Vec<u8>) -> (r: Vec<u8>)
    ensures
        r@ == v@,
{
    slice_to_vec(v.as_slice())
}

fn make_triple(a: &Vec<u8>, b: &Vec<u8>, c: &Vec<u8>) -> (r: TokenTriple)
    ensures
        r@ == (a@, b@, c@),
{
    TokenTriple { x: copy_bytes(a), y: copy_bytes(b), z: copy_bytes(c) }
}

pub(crate) fn copy_triple(t: &TokenTriple) -> (r: TokenTriple)
    ensures
        r@ == t@,
{
    TokenTriple { x: copy_bytes(&t.x), y: copy_bytes(&t.y), z: copy_bytes(&t.z) }
}

fn build_corner(
    positions: &Vec<TokenTriple>,
    normals: &Vec<TokenTriple>,
    material: u32,
    pi: usize,
    ni: usize,
) -> (r: Vertex)
    requires
        pi < positions@.len(),
        ni < normals@.len(),
    ensures
        r@ == (triples_view(positions@)[pi as int], triples_view(normals@)[ni as int], material),
{
    Vertex {
        position: copy_triple(&positions[pi]),
        normal: copy_triple(&normals[ni]),
        material,
    }
}

fn apply_line(b: &mut Builder, line: &Vec<u8>) -> (r: Result<(), ModelError>)
    ensures
        r is Ok ==> spec_line_step(old(b)@, line@) == Ok::<ParseState, ModelError>(final(b)@),
        r is Err ==> spec_line_step(old(b)@, line@) == Err::<ParseState, ModelError>(r->Err_0),
{
    proof {
        reveal(spec_line_step);
    }
    let ghost pre = b@;
    let toks = split_bytes(line.as_slice(), SPACE);
    let ghost stoks = spec_split(line@, SPACE);
    let ntoks = toks.len();
    proof {
        assert(stoks == views_of(toks@));
    }
    if ntoks == 4 && bytes_eq(toks[0].as_slice(), "v".as_bytes()) {
        let ghost old_positions = b.positions@;
        let t = make_triple(&toks[1], &toks[2], &toks[3]);
        b.positions.push(t);
        proof {
            lemma_triples_view_push(old_positions, t);
            assert(t@ == (stoks[1], stoks[2], stoks[3]));
        }
        Ok(())
    } else if ntoks == 4 && bytes_eq(toks[0].as_slice(), "vn".as_bytes()) {
        let ghost old_normals = b.normals@;
        let t = make_triple(&toks[1], &toks[2], &toks[3]);
        b.normals.push(t);
        proof {
            lemma_triples_view_push(old_normals, t);
            assert(t@ == (stoks[1], stoks[2], stoks[3]));
        }
        Ok(())
    } else if ntoks == 2 && bytes_eq(toks[0].as_slice(), "usemtl".as_bytes()) {
        b.material = material_class(toks[1].as_slice());
        Ok(())
    } else if ntoks == 4 && bytes_eq(toks[0].as_slice(), "f".as_bytes()) {
        let i1 = parse_indices_bytes(toks[1].as_slice());
        let i2 = parse_indices_bytes(toks[2].as_slice());
        let i3 = parse_indices_bytes(toks[3].as_slice());
        if i1.is_none() || i2.is_none() || i3.is_none() {
            return Err(ModelError::MalformedFaceIndex);
        }
        let (p1, n1) = i1.unwrap();
        let (p2, n2) = i2.unwrap();
        let (p3, n3) = i3.unwrap();
        let np = b.positions.len();
        let nn = b.normals.len();
        if p1 >= np || n1 >= nn || p2 >= np || n2 >= nn || p3 >= np || n3 >= nn {
            return Err(ModelError::IndexOutOfRange);
        }
        let ghost old_vertices = b.vertices@;
        let c1 = build_corner(&b.positions, &b.normals, b.material, p1, n1);
        let c2 = build_corner(&b.positions, &b.normals, b.material, p2, n2);
        let c3 = build_corner(&b.positions, &b.normals, b.material, p3, n3);
        proof {
            lemma_vertices_view_push(old_vertices, c1);
            lemma_vertices_view_push(old_vertices.push(c1), c2);
            lemma_vertices_view_push(old_vertices.push(c1).push(c2), c3);
        }
        b.vertices.push(c1);
        b.vertices.push(c2);
        b.vertices.push(c3);
        proof {
            assert(vertices_view(b.vertices@) =~= pre.vertices + seq![c1@, c2@, c3@]);
        }
        Ok(())
    } else if ntoks == 5 && bytes_eq(toks[0].as_slice(), "f".as_bytes()) {
        let i1 = parse_indices_bytes(toks[1].as_slice());
        let i2 = parse_indices_bytes(toks[2].as_slice());
        let i3 = parse_indices_bytes(toks[3].as_slice());
        let i4 = parse_indices_bytes(toks[4].as_slice());
        if i1.is_none() || i2.is_none() || i3.is_none() || i4.is_none() {
            return Err(ModelError::MalformedFaceIndex);
        }
        let (p1, n1) = i1.unwrap();
        let (p2, n2) = i2.unwrap();
        let (p3, n3) = i3.unwrap();
        let (p4, n4) = i4.unwrap();
        let np = b.positions.len();
        let nn = b.normals.len();
        if p1 >= np || n1 >= nn || p2 >= np || n2 >= nn || p3 >= np || n3 >= nn || p4 >= np || n4
            >= nn {
            return Err(ModelError::IndexOutOfRange);
        }
        let ghost old_vertices = b.vertices@;
        let c1 = build_corner(&b.positions, &b.normals, b.material, p1, n1);
        let c2 = build_corner(&b.positions, &b.normals, b.material, p2, n2);
        let c3 = build_corner(&b.positions, &b.normals, b.material, p3, n3);
        let c4 = build_corner(&b.positions, &b.normals, b.material, p1, n1);
        let c5 = build_corner(&b.positions, &b.normals, b.material, p3, n3);
        let c6 = build_corner(&b.positions, &b.normals, b.material, p4, n4);
        proof {
            lemma_vertices_view_push(old_vertices, c1);
            lemma_vertices_view_push(old_vertices.push(c1), c2);
            lemma_vertices_view_push(old_vertices.push(c1).push(c2), c3);
            lemma_vertices_view_push(old_vertices.push(c1).push(c2).push(c3), c4);
            lemma_vertices_view_push(old_vertices.push(c1).push(c2).push(c3).push(c4), c5);
            lemma_vertices_view_push(
                old_vertices.push(c1).push(c2).push(c3).push(c4).push(c5),
                c6,
            );
        }
        b.vertices.push(c1);
        b.vertices.push(c2);
        b.vertices.push(c3);
        b.vertices.push(c4);
        b.vertices.push(c5);
        b.vertices.push(c6);
        proof {
            assert(vertices_view(b.vertices@) =~= pre.vertices + seq![
                c1@,
                c2@,
                c3@,
                c4@,
                c5@,
                c6@,
            ]);
        }
        Ok(())
    } else {
        Ok(())
    }
}

/// The triangulated mesh the text denotes, as [`spec_load_model`]
/// describes; the rejection raised by the first bad face line otherwise.
#[verifier::rlimit(50)]
pub fn load_model(model_content: &str) -> (r: Result<Model, ModelError>)
    ensures
        ({
            let expected = spec_load_model(model_content.spec_bytes());
            match expected {
                Ok(vs) => r is Ok && r->Ok_0@ == vs,
                Err(e) => r == Err::<Model, ModelError>(e),
            }
        }),
{
    let bytes = model_content.as_bytes();
    let lines = lines_bytes(bytes);
    let ghost all = spec_lines(model_content.spec_bytes());
    let mut b = Builder {
        positions: Vec::new(),
        normals: Vec::new(),
        material: 0,
        vertices: Vec::new(),
    };
    proof {
        assert(triples_view(b.positions@) =~= Seq::<TripleView>::empty());
        assert(triples_view(b.normals@) =~= Seq::<TripleView>::empty());
        assert(vertices_view(b.vertices@) =~= Seq::<VertexView>::empty());
        assert(all.skip(0) =~= all);
    }
    let n = lines.len();
    let mut li: usize = 0;
    while li < n
        invariant
            li <= n,
            n == lines@.len(),
            all == spec_lines(model_content.spec_bytes()),
            all == views_of(lines@),
            spec_parse_model(all, spec_initial_state()) == spec_parse_model(
                all.skip(li as int),
                b@,
            ),
        decreases n - li,
    {
        let ghost tail = all.skip(li as int);
        let ghost pre = b@;
        proof {
            assert(tail[0] == lines@[li as int]@);
            assert(tail.drop_first() =~= all.skip(li + 1));
        }
        match apply_line(&mut b, &lines[li]) {
            Ok(()) => {
                proof {
                    assert(spec_line_step(pre, tail[0]) == Ok::<ParseState, ModelError>(b@));
                    assert(spec_parse_model(tail, pre) == spec_parse_model(all.skip(li + 1), b@));
                }
            },
            Err(e) => {
                proof {
                    assert(spec_line_step(pre, tail[0]) == Err::<ParseState, ModelError>(e));
                    assert(spec_parse_model(tail, pre) == Err::<Seq<VertexView>, ModelError>(e));
                }
                return Err(e);
            },
        }
        li = li + 1;
    }
    proof {
        assert(all.skip(n as int) =~= Seq::<Seq<u8>>::empty());
    }
    Ok(Model { vertices: b.vertices })
}

} // verus!
