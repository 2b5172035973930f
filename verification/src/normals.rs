//! The estimation of vertex normals, as mathematics.
//!
//! Every vertex starts with the zero vector. The triangles are then visited
//! in surface order; each one blends its unit face normal into the running
//! normal of its three corners and rescales that normal to unit length at
//! once. Because the rescaling happens after every step, and not once at the
//! end, an earlier triangle weighs differently from a later one: the result
//! is a left fold, and the order of the triangles is part of its meaning.

use vstd::prelude::*;
use crate::math::Vec3;
use crate::scalar::Scalar;
use crate::surface::{in_range, triangle_in_range, Triangle};

verus! {

/// The unit normal of the face with corners `pa`, `pb`, `pc`: the vector
/// product of the edges `pb - pa` and `pc - pb`, negated, then scaled to
/// length one. A face without area has no direction: its vector product
/// has norm zero, and the scaling divides by that norm all the same.
pub open spec fn face_normal(pa: Vec3, pb: Vec3, pc: Vec3) -> Vec3 {
    pb.spec_sub(pa).spec_cross(pc.spec_sub(pb)).spec_scale(Scalar::spec_neg_one()).spec_normal()
}

/// The face normal of triangle `t` over `positions`.
pub open spec fn normal_of(positions: Seq<Vec3>, t: Triangle) -> Vec3 {
    face_normal(positions[t[0] as int], positions[t[1] as int], positions[t[2] as int])
}

/// A face normal `n` taken into the running normal `acc` of a vertex: their
/// sum, scaled to length one again.
pub open spec fn blend(n: Vec3, acc: Vec3) -> Vec3 {
    n.spec_add(acc).spec_normal()
}

/// The normals after triangle `t` has been taken in: its face normal is
/// blended into the entries of its three corners, one corner after the other.
pub open spec fn fold_triangle(normals: Seq<Vec3>, positions: Seq<Vec3>, t: Triangle) -> Seq<Vec3> {
    let n = normal_of(positions, t);
    let first = normals.update(t[0] as int, blend(n, normals[t[0] as int]));
    let second = first.update(t[1] as int, blend(n, first[t[1] as int]));
    second.update(t[2] as int, blend(n, second[t[2] as int]))
}

/// `n` zero vectors.
pub open spec fn zeros(n: nat) -> Seq<Vec3> {
    Seq::new(n, |i: int| Vec3::spec_zero())
}

/// The vertex normals of a mesh: all zero at first, then every triangle is
/// taken in, in the order of the list. Each step rescales the entry it
/// touches, so the outcome depends on that order.
pub open spec fn estimate_normals(triangles: Seq<Triangle>, positions: Seq<Vec3>) -> Seq<Vec3>
    decreases triangles.len(),
{
    if triangles.len() == 0 {
        zeros(positions.len())
    } else {
        fold_triangle(
            estimate_normals(triangles.drop_last(), positions),
            positions,
            triangles.last(),
        )
    }
}

/// The running normal `acc` of vertex `v` after a triangle `t` with face
/// normal `n`: blended once for every corner of `t` that is `v`.
pub open spec fn visit(acc: Vec3, n: Vec3, t: Triangle, v: int) -> Vec3 {
    let first = if t[0] == v { blend(n, acc) } else { acc };
    let second = if t[1] == v { blend(n, first) } else { first };
    if t[2] == v { blend(n, second) } else { second }
}

/// The normal of vertex `v` alone: the left fold of `visit` over the
/// triangles, starting from the zero vector.
pub open spec fn vertex_normal(triangles: Seq<Triangle>, positions: Seq<Vec3>, v: int) -> Vec3
    decreases triangles.len(),
{
    if triangles.len() == 0 {
        Vec3::spec_zero()
    } else {
        visit(
            vertex_normal(triangles.drop_last(), positions, v),
            normal_of(positions, triangles.last()),
            triangles.last(),
            v,
        )
    }
}

/// Whether exactly one corner of `t` is the vertex `v`.
pub open spec fn occurs_once(t: Triangle, v: int) -> bool {
    ||| t[0] == v && t[1] != v && t[2] != v
    ||| t[0] != v && t[1] == v && t[2] != v
    ||| t[0] != v && t[1] != v && t[2] == v
}

/// There is one normal for every position.
pub proof fn lemma_estimate_len(triangles: Seq<Triangle>, positions: Seq<Vec3>)
    requires
        in_range(triangles, positions.len()),
    ensures
        estimate_normals(triangles, positions).len() == positions.len(),
    decreases triangles.len(),
{
    if triangles.len() > 0 {
        let rest = triangles.drop_last();
        assert forall|i: int| 0 <= i < rest.len() implies triangle_in_range(
            #[trigger] rest[i],
            positions.len(),
        ) by {
            assert(rest[i] == triangles[i]);
        }
        lemma_estimate_len(rest, positions);
        assert(triangle_in_range(triangles[triangles.len() - 1], positions.len()));
    }
}

/// The normal of a vertex depends on no other vertex's normal: it is the
/// fold, in surface order, of the face normals of the triangles that have
/// the vertex as a corner.
pub proof fn lemma_vertex_fold(triangles: Seq<Triangle>, positions: Seq<Vec3>, v: int)
    requires
        in_range(triangles, positions.len()),
        0 <= v < positions.len(),
    ensures
        estimate_normals(triangles, positions)[v] == vertex_normal(triangles, positions, v),
    decreases triangles.len(),
{
    if triangles.len() > 0 {
        let rest = triangles.drop_last();
        assert forall|i: int| 0 <= i < rest.len() implies triangle_in_range(
            #[trigger] rest[i],
            positions.len(),
        ) by {
            assert(rest[i] == triangles[i]);
        }
        lemma_estimate_len(rest, positions);
        lemma_vertex_fold(rest, positions, v);
        assert(triangle_in_range(triangles[triangles.len() - 1], positions.len()));
    }
}

/// A vertex that is no corner of any triangle keeps the zero vector.
pub proof fn lemma_untouched_vertex(triangles: Seq<Triangle>, positions: Seq<Vec3>, v: int)
    requires
        in_range(triangles, positions.len()),
        0 <= v < positions.len(),
        forall|i: int|
            0 <= i < triangles.len() ==> {
                let t = #[trigger] triangles[i];
                t[0] != v && t[1] != v && t[2] != v
            },
    ensures
        estimate_normals(triangles, positions)[v] == Vec3::spec_zero(),
{
    lemma_vertex_fold(triangles, positions, v);
    lemma_fold_skips(triangles, positions, v);
}

proof fn lemma_fold_skips(triangles: Seq<Triangle>, positions: Seq<Vec3>, v: int)
    requires
        forall|i: int|
            0 <= i < triangles.len() ==> {
                let t = #[trigger] triangles[i];
                t[0] != v && t[1] != v && t[2] != v
            },
    ensures
        vertex_normal(triangles, positions, v) == Vec3::spec_zero(),
    decreases triangles.len(),
{
    if triangles.len() > 0 {
        let rest = triangles.drop_last();
        assert forall|i: int| 0 <= i < rest.len() implies {
            let t = #[trigger] rest[i];
            t[0] != v && t[1] != v && t[2] != v
        } by {
            assert(rest[i] == triangles[i]);
        }
        lemma_fold_skips(rest, positions, v);
        let last = triangles[triangles.len() - 1];
        assert(last[0] != v && last[1] != v && last[2] != v);
    }
}

/// A vertex that two triangles share, each having it as one corner, ends up
/// with the second face normal blended into the rescaled first one. The
/// first normal is rescaled before the second arrives, so the two do not
/// enter symmetrically.
pub proof fn lemma_shared_vertex(
    first: Triangle,
    second: Triangle,
    positions: Seq<Vec3>,
    v: int,
)
    requires
        in_range(seq![first, second], positions.len()),
        occurs_once(first, v),
        occurs_once(second, v),
    ensures
        estimate_normals(seq![first, second], positions)[v] == blend(
            normal_of(positions, second),
            blend(normal_of(positions, first), Vec3::spec_zero()),
        ),
{
    let both = seq![first, second];
    assert(triangle_in_range(both[0], positions.len()));
    assert(triangle_in_range(both[1], positions.len()));
    lemma_vertex_fold(both, positions, v);
    let one = both.drop_last();
    assert(one =~= seq![first]);
    assert(one.drop_last() =~= Seq::<Triangle>::empty());
    assert(vertex_normal(one.drop_last(), positions, v) == Vec3::spec_zero());
    assert(vertex_normal(one, positions, v) == blend(
        normal_of(positions, first),
        Vec3::spec_zero(),
    ));
}

} // verus!
