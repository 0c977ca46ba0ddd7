//! Procedural generation of the topology of a UV (latitude/longitude) sphere
//! mesh: vertex positions sampled on a latitude/longitude grid, per-vertex
//! normals, and triangle connectivity with separate rules for the two pole
//! caps and the quad band between them.
//!
//! Vertex positions are kept in grid form: a [`SpherePoint`] records how many
//! latitude and longitude steps a vertex lies from the north pole and the
//! zero meridian.  The point on the unit sphere it denotes is
//! `x = sin(latAngle)·sin(lonAngle)`, `y = cos(latAngle)`,
//! `z = sin(latAngle)·cos(lonAngle)` with
//! `latAngle = π·lat_steps/stack_count` and
//! `lonAngle = 2π·lon_steps/slice_count`.  Keeping the grid form makes the
//! whole layout and triangulation exact integer data that the verifier can
//! pin down; turning a grid point into floating-point coordinates is left to
//! unverified callers.

pub mod math;

use vstd::prelude::*;

verus! {

use vstd::arithmetic::div_mod::{
    lemma_div_pos_is_pos, lemma_fundamental_div_mod, lemma_fundamental_div_mod_converse,
    lemma_mod_bound, lemma_mod_multiples_basic, lemma_mod_self_0, lemma_small_mod,
};

/// A sphere can be generated when there are at least three longitude slices
/// (a triangular cross-section) and at least two latitude stacks (a north
/// cap and a south cap).
pub open spec fn valid_counts(slice: int, stack: int) -> bool {
    slice >= 3 && stack >= 2
}

/// Number of vertices of the sphere: one north pole, `slice` vertices in
/// each of the `stack - 1` interior latitude bands, and one south pole.
pub open spec fn vertex_count(slice: int, stack: int) -> int {
    2 + slice * (stack - 1)
}

/// Index of the south pole, the last vertex.
pub open spec fn south_pole_index(slice: int, stack: int) -> int {
    vertex_count(slice, stack) - 1
}

/// Latitude steps (0 = north pole, `stack` = south pole) of the vertex at
/// position `i` of the vertex sequence.
pub open spec fn lat_steps_of(slice: int, stack: int, i: int) -> int {
    if i == 0 {
        0
    } else if i < south_pole_index(slice, stack) {
        (i - 1) / slice + 1
    } else {
        stack
    }
}

/// Longitude steps of the vertex at position `i` of the vertex sequence;
/// both poles sit on the zero meridian.
pub open spec fn lon_steps_of(slice: int, stack: int, i: int) -> int {
    if i == 0 {
        0
    } else if i < south_pole_index(slice, stack) {
        (i - 1) % slice
    } else {
        0
    }
}

/// A vertex position in grid form on the unit sphere: `lat_steps` latitude
/// steps of `π/stack_count` down from the north pole, `lon_steps` longitude
/// steps of `2π/slice_count` around from the zero meridian.
#[derive(Clone, Copy, Debug, PartialEq, Eq, Structural)]
pub struct SpherePoint {
    pub lat_steps: u32,
    pub lon_steps: u32,
}

/// One vertex of the grid-form vertex sequence is correct: its grid
/// coordinates are the ones the sampling order assigns to its index.
pub open spec fn point_wf_at(p: SpherePoint, slice: int, stack: int, i: int) -> bool {
    &&& p.lat_steps == lat_steps_of(slice, stack, i)
    &&& p.lon_steps == lon_steps_of(slice, stack, i)
}

/// The whole grid-form vertex sequence is correct: north pole first, the
/// interior bands in latitude order and longitude order within a band, the
/// south pole last.
pub open spec fn points_wf(points: Seq<SpherePoint>, slice: int, stack: int) -> bool {
    &&& points.len() == vertex_count(slice, stack)
    &&& forall|i: int| 0 <= i < points.len() ==> point_wf_at(#[trigger] points[i], slice, stack, i)
}

/// Number of (longitude, latitude) parameter records the sampler emits: one
/// for the north pole, `slice + 1` per interior band (the extra one closes
/// the seam at longitude 2π), and one for the south pole.
pub open spec fn param_count(slice: int, stack: int) -> int {
    2 + (slice + 1) * (stack - 1)
}

/// Latitude steps of the parameter record at position `i`, for records
/// before the closing south-pole record.
pub open spec fn param_lat_of(slice: int, i: int) -> int {
    if i == 0 {
        0
    } else {
        (i - 1) / (slice + 1) + 1
    }
}

/// Longitude steps of the parameter record at position `i`, for records
/// before the closing south-pole record; the value `slice` marks the
/// seam-closing record at longitude 2π.
pub open spec fn param_lon_of(slice: int, i: int) -> int {
    if i == 0 {
        0
    } else {
        (i - 1) % (slice + 1)
    }
}

/// One (longitude, latitude) parameter record of the sampler, an
/// intermediate kept for later UV mapping.
#[derive(Clone, Copy, Debug, PartialEq, Eq, Structural)]
pub enum ParamPair {
    /// An angle pair on the sampling grid: longitude angle
    /// `2π·lon_steps/slice_count` (with `lon_steps == slice_count` closing
    /// the seam at 2π), latitude angle `π·lat_steps/stack_count`.
    Steps { lon_steps: u32, lat_steps: u32 },
    /// The closing south-pole record, whose angle pair is the fixed raw
    /// value (0, 1).
    SouthPole,
}

/// The parameter record at position `i` of the parameter sequence is
/// correct.
pub open spec fn param_wf_at(p: ParamPair, slice: int, stack: int, i: int) -> bool {
    if i == param_count(slice, stack) - 1 {
        p is SouthPole
    } else {
        p matches ParamPair::Steps { lon_steps, lat_steps } && lon_steps == param_lon_of(slice, i)
            && lat_steps == param_lat_of(slice, i)
    }
}

/// The whole parameter sequence is correct: the north pole record first,
/// then per band the `slice` grid records and the seam-closing record, and
/// the south-pole record last.
pub open spec fn params_wf(params: Seq<ParamPair>, slice: int, stack: int) -> bool {
    &&& params.len() == param_count(slice, stack)
    &&& forall|i: int| 0 <= i < params.len() ==> param_wf_at(#[trigger] params[i], slice, stack, i)
}

/// One corner of a face: an index into the position sequence, and optional
/// independent indices into the UV and normal sequences.  Distinct indices
/// let a face corner share a position with another face while using a
/// different normal; the sphere generator itself always aligns position and
/// normal index.
#[derive(Debug)]
pub struct Vertex {
    pub position_index: u32,
    pub uv0_index: Option<u32>,
    pub normal_index: Option<u32>,
}

impl Vertex {
    /// A vertex reference that carries only a position index.
    pub fn from_position(index: u32) -> (r: Self)
        ensures
            r.position_index == index,
            r.uv0_index is None,
            r.normal_index is None,
    {
        Self { position_index: index, uv0_index: None, normal_index: None }
    }

    /// The same vertex reference with its normal index set.
    pub fn with_normal(self, index: u32) -> (r: Self)
        ensures
            r.position_index == self.position_index,
            r.uv0_index == self.uv0_index,
            r.normal_index == Some(index),
    {
        Self {
            position_index: self.position_index,
            uv0_index: self.uv0_index,
            normal_index: Some(index),
        }
    }
}

/// One triangle of the mesh: exactly three vertex references, ordered so
/// that the triangle winds counter-clockwise when seen from outside the
/// sphere.
#[derive(Debug)]
pub struct Face {
    datas: [Vertex; 3],
}

impl Face {
    /// The three vertex references of the face, in winding order.
    pub closed spec fn corners(self) -> Seq<Vertex> {
        self.datas@
    }

    /// Create a single face consisting of three vertices which hold indices
    /// to the actual information.
    pub fn from_triangle(first: Vertex, second: Vertex, third: Vertex) -> (r: Self)
        ensures
            r.corners() =~= seq![first, second, third],
    {
        Self { datas: [first, second, third] }
    }

    /// Call `f` on each of the three vertex references together with its
    /// position within the face, in winding order.
    pub fn visit_enumerated<F: Fn(usize, &Vertex)>(&self, f: F)
        requires
            forall|i: usize, v: Vertex| i < 3 ==> call_requires(f, (i, &v)),
    {
        let mut i: usize = 0;
        while i < 3
            invariant
                i <= 3,
                forall|j: usize, v: Vertex| j < 3 ==> call_requires(f, (j, &v)),
            decreases 3 - i,
        {
            f(i, &self.datas[i]);
            i += 1;
        }
    }
}

/// Number of faces of the sphere: `slice` triangles in the north cap, two
/// per quad of the `stack - 2` body bands, and `slice` in the south cap.
pub open spec fn face_count(slice: int, stack: int) -> int {
    slice + 2 * slice * (stack - 2) + slice
}

/// The position indices of the three corners of face `k`, in winding
/// order.  The first `slice` faces fan around the north pole; then each
/// quad of the body bands contributes its two triangles; the last `slice`
/// faces fan around the south pole.
pub open spec fn face_position_indices(slice: int, stack: int, k: int) -> (int, int, int) {
    let sp = south_pole_index(slice, stack);
    if k < slice {
        // North cap: pole, then two neighbours of the first band.
        (0, k + 1, (k + 1) % slice + 1)
    } else if k < slice + 2 * slice * (stack - 2) {
        // Body: quad number q between bands `band` and `band + 1`, split
        // along the diagonal from its next-longitude, current-band corner.
        let j = k - slice;
        let q = j / 2;
        let band = q / slice;
        let off = q % slice;
        let i1 = band * slice + off;
        let i2 = band * slice + (off + 1) % slice;
        let i3 = i1 + slice;
        let i4 = i2 + slice;
        if j % 2 == 0 {
            (i2 + 1, i1 + 1, i3 + 1)
        } else {
            (i2 + 1, i3 + 1, i4 + 1)
        }
    } else {
        // South cap: two neighbours of the last band, the pole between
        // them.
        let i = k - (slice + 2 * slice * (stack - 2));
        let base = sp - slice;
        (base + i, sp, base + (i + 1) % slice)
    }
}

/// A vertex reference of the generated sphere: it points at position `i`,
/// uses the normal of the same index, and carries no UV index.
pub open spec fn shared_index_vertex(v: Vertex, i: int) -> bool {
    &&& v.position_index == i
    &&& v.uv0_index is None
    &&& v.normal_index == Some(v.position_index)
}

/// Face `k` of the face sequence is correct: three vertex references, each
/// pointing at the position (and equal-index normal) that the
/// triangulation assigns to face `k`.
pub open spec fn face_wf_at(f: Face, slice: int, stack: int, k: int) -> bool {
    let (a, b, c) = face_position_indices(slice, stack, k);
    &&& f.corners().len() == 3
    &&& shared_index_vertex(f.corners()[0], a)
    &&& shared_index_vertex(f.corners()[1], b)
    &&& shared_index_vertex(f.corners()[2], c)
}

/// The whole face sequence is correct.
pub open spec fn faces_wf(faces: Seq<Face>, slice: int, stack: int) -> bool {
    &&& faces.len() == face_count(slice, stack)
    &&& forall|k: int| 0 <= k < faces.len() ==> face_wf_at(#[trigger] faces[k], slice, stack, k)
}

/// Sample the sphere's vertices: the grid-form position of every vertex,
/// and the (longitude, latitude) parameter record sequence.  Fails exactly
/// when the counts are too small for a sphere.
pub fn create_uv_sphere_vertices(slice_count: u32, stack_count: u32) -> (r: Option<
    (Vec<SpherePoint>, Vec<ParamPair>),
>)
    ensures
        r is Some <==> valid_counts(slice_count as int, stack_count as int),
        r matches Some(vp) ==> points_wf(vp.0@, slice_count as int, stack_count as int)
            && params_wf(vp.1@, slice_count as int, stack_count as int),
{
    if slice_count < 3 || stack_count < 2 {
        return None;
    }
    let ghost s: int = slice_count as int;
    let ghost t: int = stack_count as int;

    let mut vertices: Vec<SpherePoint> = Vec::new();
    let mut thetaphis: Vec<ParamPair> = Vec::new();

    // Add the top vertex as [0].
    vertices.push(SpherePoint { lat_steps: 0, lon_steps: 0 });
    thetaphis.push(ParamPair::Steps { lon_steps: 0, lat_steps: 0 });

    // Add the vertices of the interior bands, band by band in latitude
    // order, each band in longitude order, with one extra seam-closing
    // parameter record per band: indices [1 ..= slice*(stack-1)].
    let mut lati: u32 = 1;
    while lati < stack_count
        invariant
            3 <= s,
            2 <= t,
            s == slice_count as int,
            t == stack_count as int,
            1 <= lati <= stack_count,
            vertices@.len() == 1 + (lati - 1) * s,
            thetaphis@.len() == 1 + (lati - 1) * (s + 1),
            forall|i: int|
                0 <= i < vertices@.len() ==> point_wf_at(#[trigger] vertices@[i], s, t, i),
            forall|i: int|
                0 <= i < thetaphis@.len() ==> param_wf_at(#[trigger] thetaphis@[i], s, t, i),
        decreases stack_count - lati,
    {
        let mut long: u32 = 0;
        while long < slice_count
            invariant
                3 <= s,
                2 <= t,
                s == slice_count as int,
                t == stack_count as int,
                1 <= lati < stack_count,
                long <= slice_count,
                vertices@.len() == 1 + (lati - 1) * s + long,
                thetaphis@.len() == 1 + (lati - 1) * (s + 1) + long,
                forall|i: int|
                    0 <= i < vertices@.len() ==> point_wf_at(#[trigger] vertices@[i], s, t, i),
                forall|i: int|
                    0 <= i < thetaphis@.len() ==> param_wf_at(#[trigger] thetaphis@[i], s, t, i),
            decreases slice_count - long,
        {
            proof {
                let la: int = lati as int;
                let lo: int = long as int;
                assert((la - 1) * s + lo < (t - 1) * s && (la - 1) * (s + 1) + lo < (t - 1) * (s
                    + 1)) by (nonlinear_arith)
                    requires
                        1 <= la < t,
                        0 <= lo < s,
                ;
                lemma_fundamental_div_mod_converse((la - 1) * s + lo, s, la - 1, lo);
                lemma_fundamental_div_mod_converse((la - 1) * (s + 1) + lo, s + 1, la - 1, lo);
                assert(s * (t - 1) == (t - 1) * s) by (nonlinear_arith);
            }
            vertices.push(SpherePoint { lat_steps: lati, lon_steps: long });
            thetaphis.push(ParamPair::Steps { lon_steps: long, lat_steps: lati });
            long += 1;
        }
        proof {
            let la: int = lati as int;
            assert((la - 1) * (s + 1) + s < (t - 1) * (s + 1)) by (nonlinear_arith)
                requires
                    1 <= la < t,
                    3 <= s,
            ;
            lemma_fundamental_div_mod_converse((la - 1) * (s + 1) + s, s + 1, la - 1, s);
            assert((la - 1) * s + s == la * s && (la - 1) * (s + 1) + s + 1 == la * (s + 1))
                by (nonlinear_arith);
        }
        thetaphis.push(ParamPair::Steps { lon_steps: slice_count, lat_steps: lati });
        lati += 1;
    }

    // Add the bottom vertex as the last entry.
    proof {
        assert((t - 1) * s == s * (t - 1) && (t - 1) * (s + 1) == (s + 1) * (t - 1))
            by (nonlinear_arith);
    }
    vertices.push(SpherePoint { lat_steps: stack_count, lon_steps: 0 });
    thetaphis.push(ParamPair::SouthPole);
    Some((vertices, thetaphis))
}

/// Triangulate the sampled vertex grid into the ordered face list: north
/// cap, body quads band by band, south cap, all wound counter-clockwise
/// seen from outside.  Only the length of `vertices` is read; it locates
/// the south pole and the last band.
pub fn create_uv_sphere_faces_from(
    slice_count: u32,
    stack_count: u32,
    vertices: &Vec<SpherePoint>,
) -> (r: Vec<Face>)
    requires
        valid_counts(slice_count as int, stack_count as int),
        vertices@.len() == vertex_count(slice_count as int, stack_count as int),
        vertex_count(slice_count as int, stack_count as int) <= u32::MAX,
    ensures
        faces_wf(r@, slice_count as int, stack_count as int),
{
    let ghost s: int = slice_count as int;
    let ghost t: int = stack_count as int;
    proof {
        assert(s <= s * (t - 1) && 0 <= s * (t - 2) && s * (t - 2) + s == s * (t - 1) && 2 * s * (t
            - 2) == 2 * (s * (t - 2))) by (nonlinear_arith)
            requires
                3 <= s,
                2 <= t,
        ;
    }
    let mut faces: Vec<Face> = Vec::new();

    // Make the triangles fanning around the top vertex [0].
    let mut i1: u32 = 0;
    while i1 < slice_count
        invariant
            3 <= s,
            2 <= t,
            s == slice_count as int,
            t == stack_count as int,
            s + 2 <= u32::MAX,
            i1 <= slice_count,
            faces@.len() == i1,
            forall|k: int| 0 <= k < faces@.len() ==> face_wf_at(#[trigger] faces@[k], s, t, k),
        decreases slice_count - i1,
    {
        let i2 = (i1 + 1) % slice_count;
        faces.push(
            Face::from_triangle(
                Vertex::from_position(0).with_normal(0),
                Vertex::from_position(i1 + 1).with_normal(i1 + 1),
                Vertex::from_position(i2 + 1).with_normal(i2 + 1),
            ),
        );
        i1 += 1;
    }

    // Make the two triangles of each quad between adjacent bands.
    let mut band: u32 = 0;
    while band < stack_count - 2
        invariant
            3 <= s,
            2 <= t,
            s == slice_count as int,
            t == stack_count as int,
            2 + s * (t - 1) <= u32::MAX,
            s * (t - 2) + s == s * (t - 1),
            2 * s * (t - 2) == 2 * (s * (t - 2)),
            band <= stack_count - 2,
            faces@.len() == s + 2 * (band * s),
            forall|k: int| 0 <= k < faces@.len() ==> face_wf_at(#[trigger] faces@[k], s, t, k),
        decreases stack_count - 2 - band,
    {
        proof {
            assert((band as int) * s <= (t - 3) * s && (t - 3) * s + s <= s * (t - 2))
                by (nonlinear_arith)
                requires
                    3 <= s,
                    0 <= (band as int) <= t - 3,
            ;
        }
        let start_idx = band * slice_count;
        let mut offset: u32 = 0;
        while offset < slice_count
            invariant
                3 <= s,
                2 <= t,
                s == slice_count as int,
                t == stack_count as int,
                2 + s * (t - 1) <= u32::MAX,
                s * (t - 2) + s == s * (t - 1),
                2 * s * (t - 2) == 2 * (s * (t - 2)),
                (band as int) <= t - 3,
                start_idx == (band as int) * s,
                (start_idx as int) + s <= s * (t - 2),
                offset <= slice_count,
                faces@.len() == s + 2 * (band * s) + 2 * offset,
                forall|k: int| 0 <= k < faces@.len() ==> face_wf_at(#[trigger] faces@[k], s, t, k),
            decreases slice_count - offset,
        {
            let i1 = start_idx + offset;
            let i2 = start_idx + ((offset + 1) % slice_count);
            let i3 = i1 + slice_count;
            let i4 = i2 + slice_count;
            let ghost q: int = (band as int) * s + (offset as int);
            proof {
                let k1: int = s + 2 * q;
                assert(q < s * (t - 2)) by (nonlinear_arith)
                    requires
                        3 <= s,
                        0 <= (band as int) <= t - 3,
                        q == (band as int) * s + (offset as int),
                        0 <= (offset as int) < s,
                ;
                assert(k1 < s + 2 * s * (t - 2));
                lemma_fundamental_div_mod_converse(2 * q, 2, q, 0);
                lemma_fundamental_div_mod_converse(2 * q + 1, 2, q, 1);
                lemma_fundamental_div_mod_converse(q, s, band as int, offset as int);
            }
            // First triangle of the quad.
            faces.push(
                Face::from_triangle(
                    Vertex::from_position(i2 + 1).with_normal(i2 + 1),
                    Vertex::from_position(i1 + 1).with_normal(i1 + 1),
                    Vertex::from_position(i3 + 1).with_normal(i3 + 1),
                ),
            );
            // Second triangle of the quad.
            faces.push(
                Face::from_triangle(
                    Vertex::from_position(i2 + 1).with_normal(i2 + 1),
                    Vertex::from_position(i3 + 1).with_normal(i3 + 1),
                    Vertex::from_position(i4 + 1).with_normal(i4 + 1),
                ),
            );
            offset += 1;
        }
        proof {
            assert(s + 2 * ((band as int) * s) + 2 * s == s + 2 * (((band as int) + 1) * s))
                by (nonlinear_arith);
        }
        band += 1;
    }

    // Make the triangles fanning around the bottom vertex, the last one.
    proof {
        assert(faces@.len() == s + 2 * ((t - 2) * s));
        assert(2 * ((t - 2) * s) == 2 * s * (t - 2)) by (nonlinear_arith);
    }
    let start = vertices.len() as u32 - slice_count;
    let last = vertices.len() as u32 - 1;
    let mut i1: u32 = 0;
    while i1 < slice_count
        invariant
            3 <= s,
            2 <= t,
            s == slice_count as int,
            t == stack_count as int,
            2 + s * (t - 1) <= u32::MAX,
            (start as int) == vertex_count(s, t) - s,
            2 <= (start as int),
            (last as int) == south_pole_index(s, t),
            i1 <= slice_count,
            faces@.len() == s + 2 * s * (t - 2) + i1,
            forall|k: int| 0 <= k < faces@.len() ==> face_wf_at(#[trigger] faces@[k], s, t, k),
        decreases slice_count - i1,
    {
        let i2 = (i1 + 1) % slice_count;
        faces.push(
            Face::from_triangle(
                Vertex::from_position(start + i1 - 1).with_normal(start + i1 - 1),
                Vertex::from_position(last).with_normal(last),
                Vertex::from_position(start + i2 - 1).with_normal(start + i2 - 1),
            ),
        );
        i1 += 1;
    }

    faces
}

/// The generated sphere mesh: the grid-form position sequence, an optional
/// UV sequence (absent for this generator), an optional normal sequence
/// (present, and equal to the positions: on a unit sphere centred at the
/// origin the outward normal of a vertex is the vertex itself), and an
/// optional face sequence (present).  Constructed fully populated, then
/// read-only.
pub struct UVSphere {
    positions: Vec<SpherePoint>,
    uv0s: Option<Vec<SpherePoint>>,
    normals: Option<Vec<SpherePoint>>,
    faces: Option<Vec<Face>>,
}

/// A correctly generated sphere mesh for the given counts: correct
/// positions, no UVs, normals equal to the positions, and the correct face
/// list.
pub open spec fn sphere_wf(m: UVSphere, slice: int, stack: int) -> bool {
    &&& points_wf(m.spec_positions(), slice, stack)
    &&& m.spec_uv0s() is None
    &&& m.spec_normals() == Some(m.spec_positions())
    &&& m.spec_faces() matches Some(fs) && faces_wf(fs, slice, stack)
}

impl UVSphere {
    /// The position sequence.
    pub closed spec fn spec_positions(self) -> Seq<SpherePoint> {
        self.positions@
    }

    /// The UV sequence, if present.
    pub closed spec fn spec_uv0s(self) -> Option<Seq<SpherePoint>> {
        match self.uv0s {
            Some(v) => Some(v@),
            None => None,
        }
    }

    /// The normal sequence, if present.
    pub closed spec fn spec_normals(self) -> Option<Seq<SpherePoint>> {
        match self.normals {
            Some(v) => Some(v@),
            None => None,
        }
    }

    /// The face sequence, if present.
    pub closed spec fn spec_faces(self) -> Option<Seq<Face>> {
        match self.faces {
            Some(v) => Some(v@),
            None => None,
        }
    }

    /// Generate the sphere mesh for the given counts.  Fails exactly when
    /// `slice_count < 3` or `stack_count < 2`; on success every part of
    /// the mesh is populated as `sphere_wf` states — no partial mesh is
    /// ever observable.
    pub fn create_from(slice_count: u32, stack_count: u32) -> (r: Option<Self>)
        requires
            valid_counts(slice_count as int, stack_count as int) ==> vertex_count(
                slice_count as int,
                stack_count as int,
            ) <= u32::MAX,
        ensures
            r is Some <==> valid_counts(slice_count as int, stack_count as int),
            r matches Some(m) ==> sphere_wf(m, slice_count as int, stack_count as int),
    {
        if slice_count < 3 || stack_count < 2 {
            return None;
        }

        let (vertices, _thetaphis) = create_uv_sphere_vertices(slice_count, stack_count).unwrap();
        let normals = vertices.clone();
        proof {
            assert(normals@ =~= vertices@);
        }
        let faces = create_uv_sphere_faces_from(slice_count, stack_count, &vertices);

        Some(Self { positions: vertices, uv0s: None, normals: Some(normals), faces: Some(faces) })
    }

    /// The positions of the mesh's vertices.
    pub fn positions(&self) -> (r: &Vec<SpherePoint>)
        ensures
            r@ == self.spec_positions(),
    {
        &self.positions
    }

    /// The UV coordinates of the mesh's vertices, if present.
    pub fn uv0s(&self) -> (r: Option<&Vec<SpherePoint>>)
        ensures
            r is Some <==> self.spec_uv0s() is Some,
            r matches Some(v) ==> self.spec_uv0s() == Some(v@),
    {
        self.uv0s.as_ref()
    }

    /// The normals of the mesh's vertices, if present.
    pub fn normals(&self) -> (r: Option<&Vec<SpherePoint>>)
        ensures
            r is Some <==> self.spec_normals() is Some,
            r matches Some(v) ==> self.spec_normals() == Some(v@),
    {
        self.normals.as_ref()
    }

    /// The faces of the mesh, if present.
    pub fn faces(&self) -> (r: Option<&Vec<Face>>)
        ensures
            r is Some <==> self.spec_faces() is Some,
            r matches Some(v) ==> self.spec_faces() == Some(v@),
    {
        self.faces.as_ref()
    }
}

/// The flat index sequence of the face list — three entries per face — has
/// `3·slice` entries for the north cap, `6·slice·(stack − 2)` for the body
/// (zero when `stack == 2`) and `3·slice` for the south cap, and its
/// length is a multiple of three.
pub proof fn lemma_face_index_count(slice: int, stack: int)
    requires
        valid_counts(slice, stack),
    ensures
        3 * face_count(slice, stack) == 3 * slice + 6 * slice * (stack - 2) + 3 * slice,
        (3 * face_count(slice, stack)) % 3 == 0,
{
    assert(3 * (slice + 2 * slice * (stack - 2) + slice) == 3 * slice + 6 * slice * (stack - 2) + 3
        * slice) by (nonlinear_arith);
    lemma_mod_multiples_basic(face_count(slice, stack), 3);
}

/// Every face of the triangulation is a genuine triangle over the sampled
/// vertices: its three position indices are within the position sequence
/// and pairwise distinct.
pub proof fn lemma_face_indices_valid(slice: int, stack: int, k: int)
    requires
        valid_counts(slice, stack),
        0 <= k < face_count(slice, stack),
    ensures
        ({
            let (a, b, c) = face_position_indices(slice, stack, k);
            &&& 0 <= a < vertex_count(slice, stack)
            &&& 0 <= b < vertex_count(slice, stack)
            &&& 0 <= c < vertex_count(slice, stack)
            &&& a != b
            &&& b != c
            &&& a != c
        }),
{
    let s = slice;
    let t = stack;
    let vc = vertex_count(s, t);
    assert(s <= s * (t - 1) && 0 <= s * (t - 2) && s * (t - 2) + s == s * (t - 1) && 2 * s * (t - 2)
        == 2 * (s * (t - 2))) by (nonlinear_arith)
        requires
            3 <= s,
            2 <= t,
    ;
    if k < s {
        // North cap: pole 0, band-zero neighbours k+1 and (k+1)%s + 1.
        lemma_mod_bound(k + 1, s);
        if k + 1 < s {
            lemma_small_mod((k + 1) as nat, s as nat);
        } else {
            lemma_mod_self_0(s);
        }
    } else if k < s + 2 * s * (t - 2) {
        // Body: quad q between bands band and band + 1.
        let j = k - s;
        let q = j / 2;
        let band = q / s;
        let off = q % s;
        lemma_fundamental_div_mod(j, 2);
        lemma_mod_bound(j, 2);
        lemma_div_pos_is_pos(j, 2);
        assert(q < s * (t - 2));
        lemma_fundamental_div_mod(q, s);
        lemma_mod_bound(q, s);
        lemma_div_pos_is_pos(q, s);
        assert(band * s == s * band) by (nonlinear_arith);
        assert(band < t - 2) by (nonlinear_arith)
            requires
                q == s * band + off,
                0 <= off < s,
                0 <= band,
                q < s * (t - 2),
                3 <= s,
        ;
        assert((band + 1) * s == band * s + s && (band + 1) * s <= (t - 2) * s && (t - 2) * s + s
            == (t - 1) * s && (t - 1) * s == s * (t - 1)) by (nonlinear_arith)
            requires
                band + 1 <= t - 2,
                3 <= s,
        ;
        lemma_mod_bound(off + 1, s);
        if off + 1 < s {
            lemma_small_mod((off + 1) as nat, s as nat);
        } else {
            lemma_mod_self_0(s);
        }
    } else {
        // South cap: band (stack-2) neighbours around the south pole.
        let i = k - (s + 2 * s * (t - 2));
        lemma_mod_bound(i + 1, s);
        if i + 1 < s {
            lemma_small_mod((i + 1) as nat, s as nat);
        } else {
            lemma_mod_self_0(s);
        }
    }
}

} // verus!
