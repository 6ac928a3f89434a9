//! The expanding polytope algorithm in space.
//!
//! The polytope is a list of support points with the triangles between
//! them. The algorithm looks for the face closest to the origin, asks for
//! the support point beyond that face, takes out the faces that see the
//! point and closes the hole with faces from its rim to the point, until
//! the support point lies no further out than the face itself or the cap
//! on the number of points is reached. The closest face then gives the
//! penetration normal and depth.
use vstd::prelude::*;
use crate::collide::primitive::SupportFunction;
use crate::collide::{CollisionStrategy, Contact};
use crate::narrow::epa2d::{default_tolerance, MAX_ITERATIONS};
use crate::narrow::simplex3d::{faces_spec, Simplex3};
use crate::narrow::support::{minkowski_spec, SupportPoint};
use crate::pose::Transform;
use crate::scalar::{Additive, Scalar};
use crate::vector::{Cross, Vector3, VectorSpace};

verus! {

/// A face of the polytope: a triangle between three of its points, as seen
/// from the origin.
#[derive(Clone, Copy, Debug, PartialEq)]
pub struct Face<S> {
    /// The places in the polytope of the three corners, counter-clockwise
    /// as seen from outside.
    pub a: usize,
    pub b: usize,
    pub c: usize,
    /// The unit normal of the face, pointing away from the origin.
    pub normal: Vector3<S>,
    /// The distance of the face from the origin.
    pub distance: S,
}

/// An edge of a face: the places of the points it runs from and to.
pub type Rim = Seq<(usize, usize)>;

/// The face between the points at `a`, `b` and `c`: its normal is
/// `(b - a) x (c - a)`, brought to length one, and its distance what the
/// normal makes of `a`.
pub open spec fn face_of<S: Scalar>(vertices: Simplex3<S>, a: usize, b: usize, c: usize) -> Face<
    S,
> {
    let ab = vertices[b as int].v.minus_spec(vertices[a as int].v);
    let ac = vertices[c as int].v.minus_spec(vertices[a as int].v);
    let normal = ab.cross_spec(ac).normalized_spec();
    Face { a, b, c, normal, distance: normal.dot_spec(vertices[a as int].v) }
}

/// The four faces of the tetrahedron of the first four points.
pub open spec fn tetrahedron_faces<S: Scalar>(vertices: Simplex3<S>) -> Seq<Face<S>> {
    seq![
        face_of(vertices, 3, 2, 1),
        face_of(vertices, 3, 1, 0),
        face_of(vertices, 3, 0, 2),
        face_of(vertices, 2, 0, 1),
    ]
}

/// Whether every corner of every face is one of the first `count` points.
pub open spec fn faces_within<S: Scalar>(faces: Seq<Face<S>>, count: int) -> bool {
    forall|k: int|
        0 <= k < faces.len() ==> (#[trigger] faces[k]).a < count && faces[k].b < count
            && faces[k].c < count
}

/// Whether both ends of every edge are among the first `count` points.
pub open spec fn rim_within(rim: Rim, count: int) -> bool {
    forall|k: int| 0 <= k < rim.len() ==> (#[trigger] rim[k]).0 < count && rim[k].1 < count
}

/// The closest to the origin of the first `count` faces: the first of
/// them that no other is closer than.
pub open spec fn closest_face<S: Scalar>(faces: Seq<Face<S>>, count: int) -> Face<S>
    decreases count,
{
    if count <= 1 {
        faces[0]
    } else {
        let best = closest_face(faces, count - 1);
        if faces[count - 1].distance.rank() < best.distance.rank() {
            faces[count - 1]
        } else {
            best
        }
    }
}

/// The closest face is one of the faces.
pub proof fn lemma_closest_face_is_face<S: Scalar>(faces: Seq<Face<S>>, count: int)
    requires
        1 <= count <= faces.len(),
    ensures
        exists|k: int| 0 <= k < count && #[trigger] faces[k] == closest_face(faces, count),
        forall|k: int|
            0 <= k < count ==> closest_face(faces, count).distance.rank() <= (
            #[trigger] faces[k]).distance.rank(),
    decreases count,
{
    if count > 1 {
        lemma_closest_face_is_face(faces, count - 1);
        let k = choose|k: int|
            0 <= k < count - 1 && #[trigger] faces[k] == closest_face(faces, count - 1);
        if faces[count - 1].distance.rank() < closest_face(faces, count - 1).distance.rank() {
            assert(faces[count - 1] == closest_face(faces, count));
        } else {
            assert(faces[k] == closest_face(faces, count));
        }
    } else {
        assert(faces[0] == closest_face(faces, count));
    }
}

/// Whether the face sees the point `p`: the point lies on the side to
/// which the normal of the face points.
pub open spec fn sees<S: Scalar>(face: Face<S>, vertices: Simplex3<S>, p: Vector3<S>) -> bool {
    faces_spec(face.normal, p.minus_spec(vertices[face.a as int].v))
}

/// Those of the first `count` faces that do not see `p`, in their order.
pub open spec fn hidden_faces<S: Scalar>(
    faces: Seq<Face<S>>,
    vertices: Simplex3<S>,
    p: Vector3<S>,
    count: int,
) -> Seq<Face<S>>
    decreases count,
{
    if count <= 0 {
        Seq::empty()
    } else if sees(faces[count - 1], vertices, p) {
        hidden_faces(faces, vertices, p, count - 1)
    } else {
        hidden_faces(faces, vertices, p, count - 1).push(faces[count - 1])
    }
}

/// The place of the first of the edges from `from` on that is `edge`
/// reversed; the number of the edges where there is none.
pub open spec fn reverse_of(rim: Rim, edge: (usize, usize), from: int) -> int
    decreases rim.len() - from,
{
    if from >= rim.len() {
        rim.len() as int
    } else if rim[from].0 == edge.1 && rim[from].1 == edge.0 {
        from
    } else {
        reverse_of(rim, edge, from + 1)
    }
}

/// The rim with the edge `edge` of a face that was taken out: an edge
/// that two such faces share is no part of the rim, so where the rim holds
/// the edge reversed, that edge leaves; else `edge` joins.
pub open spec fn with_edge(rim: Rim, edge: (usize, usize)) -> Rim {
    let place = reverse_of(rim, edge, 0);
    if place < rim.len() {
        rim.remove(place)
    } else {
        rim.push(edge)
    }
}

/// The rim of the hole that is left when those of the first `count` faces
/// that see `p` are taken out.
pub open spec fn rim_of<S: Scalar>(
    faces: Seq<Face<S>>,
    vertices: Simplex3<S>,
    p: Vector3<S>,
    count: int,
) -> Rim
    decreases count,
{
    if count <= 0 {
        Seq::empty()
    } else {
        let rim = rim_of(faces, vertices, p, count - 1);
        let face = faces[count - 1];
        if sees(face, vertices, p) {
            with_edge(
                with_edge(with_edge(rim, (face.a, face.b)), (face.b, face.c)),
                (face.c, face.a),
            )
        } else {
            rim
        }
    }
}

/// The faces from the first `count` edges of the rim to the point at
/// `apex`.
pub open spec fn faces_to<S: Scalar>(vertices: Simplex3<S>, apex: usize, rim: Rim, count: int)
    -> Seq<Face<S>>
    decreases count,
{
    if count <= 0 {
        Seq::empty()
    } else {
        faces_to(vertices, apex, rim, count - 1).push(
            face_of(vertices, apex, rim[count - 1].0, rim[count - 1].1),
        )
    }
}

/// A polytope: its points and its faces.
pub struct Polytope3<S> {
    pub vertices: Simplex3<S>,
    pub faces: Seq<Face<S>>,
}

/// The polytope with the point `p`: the faces that see `p` are taken out,
/// and faces from the rim of the hole to `p` are put in after the others.
pub open spec fn grown<S: Scalar>(polytope: Polytope3<S>, p: SupportPoint<Vector3<S>>)
    -> Polytope3<S> {
    let count = polytope.faces.len() as int;
    let rim = rim_of(polytope.faces, polytope.vertices, p.v, count);
    let vertices = polytope.vertices.push(p);
    Polytope3 {
        vertices,
        faces: hidden_faces(polytope.faces, polytope.vertices, p.v, count) + faces_to(
            vertices,
            polytope.vertices.len() as usize,
            rim,
            rim.len() as int,
        ),
    }
}

/// The support point beyond the closest face of the polytope.
pub open spec fn next_point<S, SL, TL, SR, TR>(
    polytope: Polytope3<S>,
    left: &SL,
    left_transform: &TL,
    right: &SR,
    right_transform: &TR,
) -> SupportPoint<Vector3<S>> where
    S: Scalar,
    TL: Transform<Vector3<S>>,
    TR: Transform<Vector3<S>>,
    SL: SupportFunction<Vector3<S>, TL>,
    SR: SupportFunction<Vector3<S>, TR>,
 {
    minkowski_spec(
        left,
        left_transform,
        right,
        right_transform,
        closest_face(polytope.faces, polytope.faces.len() as int).normal,
    )
}

/// Whether the algorithm is done with the polytope: the support point
/// beyond the closest face lies less than `tolerance` further out than the
/// face itself, or the polytope would be left without a face if the point
/// were put in.
pub open spec fn done<S, SL, TL, SR, TR>(
    polytope: Polytope3<S>,
    left: &SL,
    left_transform: &TL,
    right: &SR,
    right_transform: &TR,
    tolerance: S,
) -> bool where
    S: Scalar,
    TL: Transform<Vector3<S>>,
    TR: Transform<Vector3<S>>,
    SL: SupportFunction<Vector3<S>, TL>,
    SR: SupportFunction<Vector3<S>, TR>,
 {
    let face = closest_face(polytope.faces, polytope.faces.len() as int);
    let p = next_point(polytope, left, left_transform, right, right_transform);
    p.v.dot_spec(face.normal).minus_spec(face.distance).rank() < tolerance.rank() || grown(
        polytope,
        p,
    ).faces.len() == 0
}

/// The polytope that the algorithm ends with, when it may add `cap` points
/// more.
pub open spec fn final_polytope<S, SL, TL, SR, TR>(
    polytope: Polytope3<S>,
    left: &SL,
    left_transform: &TL,
    right: &SR,
    right_transform: &TR,
    tolerance: S,
    cap: nat,
) -> Polytope3<S> where
    S: Scalar,
    TL: Transform<Vector3<S>>,
    TR: Transform<Vector3<S>>,
    SL: SupportFunction<Vector3<S>, TL>,
    SR: SupportFunction<Vector3<S>, TR>,

    decreases cap,
{
    if cap == 0 || done(polytope, left, left_transform, right, right_transform, tolerance) {
        polytope
    } else {
        final_polytope(
            grown(polytope, next_point(polytope, left, left_transform, right, right_transform)),
            left,
            left_transform,
            right,
            right_transform,
            tolerance,
            (cap - 1) as nat,
        )
    }
}

/// One of `a`, `b` and `c`: the one whose point of the difference lies
/// nearest to `target`, the first such where several lie as near.
pub open spec fn nearest_of<S: Scalar>(
    target: Vector3<S>,
    a: SupportPoint<Vector3<S>>,
    b: SupportPoint<Vector3<S>>,
    c: SupportPoint<Vector3<S>>,
) -> SupportPoint<Vector3<S>> {
    let to_a = a.v.minus_spec(target).magnitude2_spec();
    let to_b = b.v.minus_spec(target).magnitude2_spec();
    let to_c = c.v.minus_spec(target).magnitude2_spec();
    let first = if to_b.rank() < to_a.rank() { b } else { a };
    let least = if to_b.rank() < to_a.rank() { to_b } else { to_a };
    if to_c.rank() < least.rank() {
        c
    } else {
        first
    }
}

/// The contact point on the first shape for the closest face `face`.
///
/// The origin is projected onto the plane of the face, and the support
/// points on the first shape are weighed with the barycentric coordinates
/// of the projection in the face. Where the face has an area of less than
/// `epsilon`, so that it has no such coordinates, the support point of the
/// nearest corner is taken.
pub open spec fn point_spec<S: Scalar>(vertices: Simplex3<S>, face: Face<S>, epsilon: S)
    -> Vector3<S> {
    let a = vertices[face.a as int];
    let b = vertices[face.b as int];
    let c = vertices[face.c as int];
    let target = face.normal.scaled_spec(face.distance);
    let v0 = b.v.minus_spec(a.v);
    let v1 = c.v.minus_spec(a.v);
    let v2 = target.minus_spec(a.v);
    let d00 = v0.dot_spec(v0);
    let d01 = v0.dot_spec(v1);
    let d11 = v1.dot_spec(v1);
    let d20 = v2.dot_spec(v0);
    let d21 = v2.dot_spec(v1);
    let area = d00.times_spec(d11).minus_spec(d01.times_spec(d01));
    if area.rank() < epsilon.rank() && epsilon.negated_spec().rank() < area.rank() {
        nearest_of(target, a, b, c).sup_a
    } else {
        let v = d11.times_spec(d20).minus_spec(d01.times_spec(d21)).over_spec(area);
        let w = d00.times_spec(d21).minus_spec(d01.times_spec(d20)).over_spec(area);
        let u = S::one_spec().minus_spec(v).minus_spec(w);
        a.sup_a.scaled_spec(u).plus_spec(b.sup_a.scaled_spec(v)).plus_spec(
            c.sup_a.scaled_spec(w),
        )
    }
}

/// The contact that the closest face of a polytope gives: the normal of
/// the face, its distance from the origin as the penetration depth, and
/// the contact point on the first shape.
pub open spec fn contact_of<S: Scalar>(polytope: Polytope3<S>, epsilon: S) -> Contact<Vector3<S>> {
    let face = closest_face(polytope.faces, polytope.faces.len() as int);
    Contact {
        strategy: CollisionStrategy::FullResolution,
        normal: face.normal,
        penetration_depth: face.distance,
        contact_point: point_spec(polytope.vertices, face, epsilon),
    }
}

fn make_face<S: Scalar>(vertices: &Vec<SupportPoint<Vector3<S>>>, a: usize, b: usize, c: usize) -> (r:
    Face<S>)
    requires
        a < vertices@.len(),
        b < vertices@.len(),
        c < vertices@.len(),
    ensures
        r == face_of(vertices@, a, b, c),
{
    let ab = vertices[b].v.minus(vertices[a].v);
    let ac = vertices[c].v.minus(vertices[a].v);
    let normal = ab.cross(ac).normalized();
    Face { a, b, c, normal, distance: normal.dot(vertices[a].v) }
}

fn find_closest<S: Scalar>(faces: &Vec<Face<S>>) -> (r: Face<S>)
    requires
        faces@.len() >= 1,
    ensures
        r == closest_face(faces@, faces@.len() as int),
{
    let mut best = faces[0];
    let mut k: usize = 1;
    while k < faces.len()
        invariant
            1 <= k <= faces@.len(),
            best == closest_face(faces@, k as int),
        decreases faces@.len() - k,
    {
        if faces[k].distance.lt(best.distance) {
            best = faces[k];
        }
        k += 1;
    }
    best
}

fn add_edge(rim: &mut Vec<(usize, usize)>, edge: (usize, usize))
    ensures
        final(rim)@ == with_edge(old(rim)@, edge),
        forall|count: int|
            rim_within(old(rim)@, count) && edge.0 < count && edge.1 < count ==> rim_within(
                final(rim)@,
                count,
            ),
{
    let mut k: usize = 0;
    while k < rim.len()
        invariant
            k <= rim@.len(),
            rim@ == old(rim)@,
            reverse_of(rim@, edge, k as int) == reverse_of(rim@, edge, 0),
        decreases rim@.len() - k,
    {
        if rim[k].0 == edge.1 && rim[k].1 == edge.0 {
            rim.remove(k);
            proof {
                old(rim)@.remove_ensures(k as int);
                assert forall|count: int|
                    rim_within(old(rim)@, count) && edge.0 < count && edge.1
                        < count implies rim_within(rim@, count) by {
                    assert forall|i: int| 0 <= i < rim@.len() implies (#[trigger] rim@[i]).0
                        < count && rim@[i].1 < count by {
                        if i < k {
                            assert(rim@[i] == old(rim)@[i]);
                        } else {
                            assert(rim@[i] == old(rim)@[i + 1]);
                        }
                    }
                }
            }
            return ;
        }
        k += 1;
    }
    rim.push(edge);
    proof {
        assert forall|count: int|
            rim_within(old(rim)@, count) && edge.0 < count && edge.1 < count implies rim_within(
            rim@,
            count,
        ) by {
            assert forall|i: int| 0 <= i < rim@.len() implies (#[trigger] rim@[i]).0 < count
                && rim@[i].1 < count by {
                if i < old(rim)@.len() {
                    assert(rim@[i] == old(rim)@[i]);
                }
            }
        }
    }
}

/// The contact point in world coordinates on the first shape.
pub fn point<S: Scalar>(vertices: &Vec<SupportPoint<Vector3<S>>>, face: &Face<S>, epsilon: S) -> (r:
    Vector3<S>)
    requires
        face.a < vertices@.len(),
        face.b < vertices@.len(),
        face.c < vertices@.len(),
    ensures
        r == point_spec(vertices@, *face, epsilon),
{
    let a = vertices[face.a];
    let b = vertices[face.b];
    let c = vertices[face.c];
    let target = face.normal.scaled(face.distance);
    let v0 = b.v.minus(a.v);
    let v1 = c.v.minus(a.v);
    let v2 = target.minus(a.v);
    let d00 = v0.dot(v0);
    let d01 = v0.dot(v1);
    let d11 = v1.dot(v1);
    let d20 = v2.dot(v0);
    let d21 = v2.dot(v1);
    let area = d00.times(d11).minus(d01.times(d01));
    if area.lt(epsilon) && epsilon.negated().lt(area) {
        let to_a = a.v.minus(target).magnitude2();
        let to_b = b.v.minus(target).magnitude2();
        let to_c = c.v.minus(target).magnitude2();
        let nearer = to_b.lt(to_a);
        let first = if nearer { b } else { a };
        let least = if nearer { to_b } else { to_a };
        if to_c.lt(least) {
            c.sup_a
        } else {
            first.sup_a
        }
    } else {
        let v = d11.times(d20).minus(d01.times(d21)).over(area);
        let w = d00.times(d21).minus(d01.times(d20)).over(area);
        let u = S::one().minus(v).minus(w);
        a.sup_a.scaled(u).plus(b.sup_a.scaled(v)).plus(c.sup_a.scaled(w))
    }
}

/// The faces that do not see `p`, and the rim of the hole that the others
/// leave.
fn split<S: Scalar>(
    vertices: &Vec<SupportPoint<Vector3<S>>>,
    faces: &Vec<Face<S>>,
    p: Vector3<S>,
) -> (r: (Vec<Face<S>>, Vec<(usize, usize)>))
    requires
        faces_within(faces@, vertices@.len() as int),
    ensures
        r.0@ == hidden_faces(faces@, vertices@, p, faces@.len() as int),
        r.1@ == rim_of(faces@, vertices@, p, faces@.len() as int),
        faces_within(r.0@, vertices@.len() as int),
        rim_within(r.1@, vertices@.len() as int),
{
    let mut hidden: Vec<Face<S>> = Vec::new();
    let mut rim: Vec<(usize, usize)> = Vec::new();
    let mut k: usize = 0;
    while k < faces.len()
        invariant
            k <= faces@.len(),
            faces_within(faces@, vertices@.len() as int),
            hidden@ == hidden_faces(faces@, vertices@, p, k as int),
            rim@ == rim_of(faces@, vertices@, p, k as int),
            faces_within(hidden@, vertices@.len() as int),
            rim_within(rim@, vertices@.len() as int),
        decreases faces@.len() - k,
    {
        let face = faces[k];
        if S::zero().lt(face.normal.dot(p.minus(vertices[face.a].v))) {
            add_edge(&mut rim, (face.a, face.b));
            add_edge(&mut rim, (face.b, face.c));
            add_edge(&mut rim, (face.c, face.a));
        } else {
            hidden.push(face);
        }
        k += 1;
    }
    (hidden, rim)
}

proof fn lemma_faces_to_len<S: Scalar>(vertices: Simplex3<S>, apex: usize, rim: Rim, count: int)
    requires
        0 <= count,
    ensures
        faces_to(vertices, apex, rim, count).len() == count,
    decreases count,
{
    if count > 0 {
        lemma_faces_to_len(vertices, apex, rim, count - 1);
    }
}

/// The expanding polytope algorithm in space.
#[derive(Clone, Copy, Debug)]
pub struct EPA3<S> {
    tolerance: S,
    max_iterations: u32,
}

impl<S: Scalar> EPA3<S> {
    pub closed spec fn tolerance_spec(&self) -> S {
        self.tolerance
    }

    pub closed spec fn max_iterations_spec(&self) -> u32 {
        self.max_iterations
    }

    /// The algorithm with a tolerance of a millionth and a cap of
    /// `MAX_ITERATIONS` points.
    pub fn new() -> (r: Self)
        ensures
            r.tolerance_spec() == default_tolerance::<S>(),
            r.max_iterations_spec() == MAX_ITERATIONS,
    {
        Self::new_with_tolerance(S::one().over(S::from_count(1_000_000)), MAX_ITERATIONS)
    }

    pub fn new_with_tolerance(tolerance: S, max_iterations: u32) -> (r: Self)
        ensures
            r.tolerance_spec() == tolerance,
            r.max_iterations_spec() == max_iterations,
    {
        EPA3 { tolerance, max_iterations }
    }

    pub fn tolerance(&self) -> (r: S)
        ensures
            r == self.tolerance_spec(),
    {
        self.tolerance
    }

    pub fn max_iterations(&self) -> (r: u32)
        ensures
            r == self.max_iterations_spec(),
    {
        self.max_iterations
    }

    /// Expands the polytope from the tetrahedron of the first four points
    /// of the simplex, and gives the contact of its closest face. The
    /// points that the algorithm adds join the simplex.
    ///
    /// A simplex of fewer than four points has no face: it is left as it
    /// is and gives no contact.
    pub fn process<SL, TL, SR, TR>(
        &self,
        simplex: &mut Vec<SupportPoint<Vector3<S>>>,
        left: &SL,
        left_transform: &TL,
        right: &SR,
        right_transform: &TR,
    ) -> (r: Option<Contact<Vector3<S>>>) where
        TL: Transform<Vector3<S>>,
        TR: Transform<Vector3<S>>,
        SL: SupportFunction<Vector3<S>, TL>,
        SR: SupportFunction<Vector3<S>, TR>,

        ensures
            old(simplex)@.len() < 4 ==> r is None && final(simplex)@ == old(simplex)@,
            old(simplex)@.len() >= 4 ==> {
                let end = final_polytope(
                    Polytope3 {
                        vertices: old(simplex)@,
                        faces: tetrahedron_faces(old(simplex)@),
                    },
                    left,
                    left_transform,
                    right,
                    right_transform,
                    self.tolerance_spec(),
                    self.max_iterations_spec() as nat,
                );
                final(simplex)@ == end.vertices && r == Some(
                    contact_of(end, self.tolerance_spec()),
                )
            },
    {
        if simplex.len() < 4 {
            return None;
        }
        let mut faces: Vec<Face<S>> = Vec::new();
        faces.push(make_face(simplex, 3, 2, 1));
        faces.push(make_face(simplex, 3, 1, 0));
        faces.push(make_face(simplex, 3, 0, 2));
        faces.push(make_face(simplex, 2, 0, 1));
        assert(faces@ =~= tetrahedron_faces(simplex@));
        let mut remaining: u32 = self.max_iterations;
        while remaining > 0
            invariant
                simplex@.len() >= 4,
                faces@.len() >= 1,
                faces_within(faces@, simplex@.len() as int),
                final_polytope(
                    Polytope3 { vertices: simplex@, faces: faces@ },
                    left,
                    left_transform,
                    right,
                    right_transform,
                    self.tolerance,
                    remaining as nat,
                ) == final_polytope(
                    Polytope3 {
                        vertices: old(simplex)@,
                        faces: tetrahedron_faces(old(simplex)@),
                    },
                    left,
                    left_transform,
                    right,
                    right_transform,
                    self.tolerance,
                    self.max_iterations as nat,
                ),
            ensures
                faces@.len() >= 1,
                faces_within(faces@, simplex@.len() as int),
                (Polytope3 { vertices: simplex@, faces: faces@ }) == final_polytope(
                    Polytope3 {
                        vertices: old(simplex)@,
                        faces: tetrahedron_faces(old(simplex)@),
                    },
                    left,
                    left_transform,
                    right,
                    right_transform,
                    self.tolerance,
                    self.max_iterations as nat,
                ),
            decreases remaining,
        {
            let ghost polytope = Polytope3 { vertices: simplex@, faces: faces@ };
            let face = find_closest(&faces);
            let p = SupportPoint::from_minkowski(
                left,
                left_transform,
                right,
                right_transform,
                &face.normal,
            );
            if p.v.dot(face.normal).minus(face.distance).lt(self.tolerance) {
                break ;
            }
            let (hidden, rim) = split(simplex, &faces, p.v);
            proof {
                lemma_faces_to_len(
                    polytope.vertices.push(p),
                    polytope.vertices.len() as usize,
                    rim@,
                    rim@.len() as int,
                );
            }
            if hidden.len() == 0 && rim.len() == 0 {
                break ;
            }
            let apex = simplex.len();
            simplex.push(p);
            faces = hidden;
            let ghost kept = faces@;
            let mut k: usize = 0;
            while k < rim.len()
                invariant
                    k <= rim@.len(),
                    apex + 1 == simplex@.len(),
                    rim_within(rim@, apex as int),
                    faces_within(faces@, simplex@.len() as int),
                    faces@ == kept + faces_to(simplex@, apex, rim@, k as int),
                decreases rim@.len() - k,
            {
                faces.push(make_face(simplex, apex, rim[k].0, rim[k].1));
                k += 1;
                assert(faces@ =~= kept + faces_to(simplex@, apex, rim@, k as int));
            }
            proof {
                assert(Polytope3 { vertices: simplex@, faces: faces@ } == grown(polytope, p));
            }
            remaining -= 1;
        }
        let face = find_closest(&faces);
        proof {
            lemma_closest_face_is_face(faces@, faces@.len() as int);
        }
        Some(
            Contact::new_with_point(
                CollisionStrategy::FullResolution,
                face.normal,
                face.distance,
                point(simplex, &face, self.tolerance),
            ),
        )
    }
}

} // verus!
