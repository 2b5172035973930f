//! Vertex positions and the normals derived from them.

use vstd::prelude::*;
use crate::error::LoadError;
use crate::math::Vec3;
use crate::normals::{estimate_normals, zeros};
use crate::scalar::Scalar;
use crate::surface::{in_range, triangle_in_range, SimplicialSurface, Triangle};

verus! {

/// What an `AttributeMap` holds: one position and one normal per vertex.
pub struct Attributes {
    pub positions: Seq<Vec3>,
    pub normals: Seq<Vec3>,
}

/// Whether `attributes` are the positions of a mesh with the triangles
/// `triangles`, together with the normals estimated from them.
pub open spec fn built_from(attributes: Attributes, triangles: Seq<Triangle>) -> bool {
    &&& in_range(triangles, attributes.positions.len())
    &&& attributes.normals == estimate_normals(triangles, attributes.positions)
}

/// Estimating again gives the same normals: two attribute sets over the same
/// positions, both built from the same triangles, are equal.
pub proof fn lemma_rebuild_is_identical(
    first: Attributes,
    second: Attributes,
    triangles: Seq<Triangle>,
)
    requires
        built_from(first, triangles),
        built_from(second, triangles),
        first.positions == second.positions,
    ensures
        first == second,
{
}

/// Two parallel arrays over the vertices of a mesh: where each vertex is, and
/// the direction in which it is shaded. Both are fixed at construction.
pub struct AttributeMap {
    positions: Vec<Vec3>,
    normals: Vec<Vec3>,
}

impl View for AttributeMap {
    type V = Attributes;

    closed spec fn view(&self) -> Attributes {
        Attributes { positions: self.positions@, normals: self.normals@ }
    }
}

impl AttributeMap {
    #[verifier::type_invariant]
    spec fn parallel(&self) -> bool {
        self.positions@.len() == self.normals@.len()
    }

    /// Pairs `positions` with the normals estimated over `surface`. Fails if
    /// and only if some triangle names a vertex that has no position.
    pub fn new(surface: &SimplicialSurface, positions: Vec<Vec3>) -> (r: Result<
        AttributeMap,
        LoadError,
    >)
        ensures
            in_range(surface@, positions@.len()) ==> r is Ok && r->Ok_0@.positions == positions@
                && built_from(r->Ok_0@, surface@),
            !in_range(surface@, positions@.len()) ==> r is Err && r->Err_0
                == LoadError::IndexOutOfRange,
    {
        let count: usize = positions.len();
        if !surface.within(count) {
            return Err(LoadError::IndexOutOfRange);
        }
        let mut normals: Vec<Vec3> = Vec::with_capacity(count);
        let mut i: usize = 0;
        while i < count
            invariant
                i <= count,
                normals@ == zeros(i as nat),
            decreases count - i,
        {
            normals.push(Vec3::zero());
            assert(normals@ =~= zeros((i + 1) as nat));
            i += 1;
        }
        let total: usize = surface.triangle_count();
        let mut k: usize = 0;
        assert(surface@.take(0) =~= Seq::<Triangle>::empty());
        while k < total
            invariant
                k <= total,
                total == surface@.len(),
                count == positions@.len(),
                in_range(surface@, count as nat),
                normals@.len() == count,
                normals@ == estimate_normals(surface@.take(k as int), positions@),
            decreases total - k,
        {
            let t: Triangle = surface.triangle(k);
            assert(triangle_in_range(surface@[k as int], count as nat));
            let a: usize = t[0] as usize;
            let b: usize = t[1] as usize;
            let c: usize = t[2] as usize;
            let va: Vec3 = positions[a];
            let vb: Vec3 = positions[b];
            let vc: Vec3 = positions[c];
            let n: Vec3 = (Scalar::neg_one() * (vb - va).cross(vc - vb)).normal();
            let na: Vec3 = (n + normals[a]).normal();
            normals.set(a, na);
            let nb: Vec3 = (n + normals[b]).normal();
            normals.set(b, nb);
            let nc: Vec3 = (n + normals[c]).normal();
            normals.set(c, nc);
            proof {
                let next = surface@.take(k + 1);
                assert(next.drop_last() =~= surface@.take(k as int));
                assert(next.last() == t);
            }
            k += 1;
        }
        assert(surface@.take(total as int) =~= surface@);
        Ok(AttributeMap { positions, normals })
    }

    /// The number of vertices.
    pub fn vertex_count(&self) -> (n: usize)
        ensures
            n == self@.positions.len(),
            n == self@.normals.len(),
    {
        proof {
            use_type_invariant(self);
        }
        self.positions.len()
    }

    /// The position of every vertex, by vertex index.
    pub fn positions(&self) -> (r: &Vec<Vec3>)
        ensures
            r@ == self@.positions,
    {
        &self.positions
    }

    /// The normal of every vertex, by vertex index.
    pub fn normals(&self) -> (r: &Vec<Vec3>)
        ensures
            r@ == self@.normals,
            r@.len() == self@.positions.len(),
    {
        proof {
            use_type_invariant(self);
        }
        &self.normals
    }
}

} // verus!
