//! The triangle-index structure of a mesh.

use vstd::prelude::*;
use crate::error::LoadError;

verus! {

/// Three vertex indices in winding order.
pub type Triangle = [u16; 3];

/// Whether all three corners of `t` are below `count`.
pub open spec fn triangle_in_range(t: Triangle, count: nat) -> bool {
    t[0] < count && t[1] < count && t[2] < count
}

/// Whether every corner of every triangle is below `count`.
pub open spec fn in_range(triangles: Seq<Triangle>, count: nat) -> bool {
    forall|i: int| 0 <= i < triangles.len() ==> triangle_in_range(#[trigger] triangles[i], count)
}

/// The triangle made of the three indices that start at position `3 * i`.
pub open spec fn chunk(indices: Seq<u16>, i: int) -> Triangle {
    [indices[3 * i], indices[3 * i + 1], indices[3 * i + 2]]
}

/// The index stream cut into consecutive triples; up to two indices at the
/// end belong to no triple.
pub open spec fn group(indices: Seq<u16>) -> Seq<Triangle> {
    Seq::new((indices.len() / 3) as nat, |i: int| chunk(indices, i))
}

/// An ordered list of triangles over vertices that are kept elsewhere.
/// Nothing is checked when it is made; it never changes afterwards.
pub struct SimplicialSurface {
    triangles: Vec<Triangle>,
}

impl View for SimplicialSurface {
    type V = Seq<Triangle>;

    closed spec fn view(&self) -> Seq<Triangle> {
        self.triangles@
    }
}

impl SimplicialSurface {
    /// The surface that lists `triangles` in the given order.
    pub fn new(triangles: Vec<Triangle>) -> (s: SimplicialSurface)
        ensures
            s@ == triangles@,
    {
        SimplicialSurface { triangles }
    }

    /// Cuts an index stream into triangles. Fails if and only if the number
    /// of indices is not a multiple of three.
    pub fn from_indices(indices: &Vec<u16>) -> (r: Result<SimplicialSurface, LoadError>)
        ensures
            indices@.len() % 3 == 0 ==> r is Ok && r->Ok_0@ == group(indices@),
            indices@.len() % 3 != 0 ==> r is Err && r->Err_0 == LoadError::MalformedIndexData,
    {
        let n: usize = indices.len();
        if n % 3 != 0 {
            return Err(LoadError::MalformedIndexData);
        }
        let count: usize = n / 3;
        let mut triangles: Vec<Triangle> = Vec::with_capacity(count);
        let mut i: usize = 0;
        while i < count
            invariant
                n == indices@.len(),
                n == 3 * count,
                i <= count,
                triangles@.len() == i,
                forall|j: int| 0 <= j < i ==> #[trigger] triangles@[j] == chunk(indices@, j),
            decreases count - i,
        {
            let t: Triangle = [indices[3 * i], indices[3 * i + 1], indices[3 * i + 2]];
            triangles.push(t);
            i += 1;
        }
        assert(triangles@ =~= group(indices@));
        Ok(SimplicialSurface { triangles })
    }

    /// The number of triangles.
    pub fn triangle_count(&self) -> (n: usize)
        ensures
            n == self@.len(),
    {
        self.triangles.len()
    }

    /// The `i`-th triangle, counted from zero in the order of construction.
    pub fn triangle(&self, i: usize) -> (t: Triangle)
        requires
            i < self@.len(),
        ensures
            t == self@[i as int],
    {
        self.triangles[i]
    }

    /// All triangles, in the order of construction.
    pub fn triangles(&self) -> (r: &Vec<Triangle>)
        ensures
            r@ == self@,
    {
        &self.triangles
    }

    /// The number of indices that the triangles hold together, if it fits
    /// into 32 bits.
    pub fn index_count(&self) -> (r: Option<u32>)
        ensures
            3 * self@.len() <= u32::MAX ==> r == Some((3 * self@.len()) as u32),
            3 * self@.len() > u32::MAX ==> r is None,
    {
        let n: usize = self.triangles.len();
        if n <= 0x5555_5555 {
            Some((3 * n) as u32)
        } else {
            None
        }
    }

    /// Whether every corner of every triangle is a valid index into an array
    /// of `vertex_count` vertices.
    pub fn within(&self, vertex_count: usize) -> (r: bool)
        ensures
            r == in_range(self@, vertex_count as nat),
    {
        let mut i: usize = 0;
        while i < self.triangles.len()
            invariant
                i <= self.triangles@.len(),
                in_range(self.triangles@.take(i as int), vertex_count as nat),
            decreases self.triangles@.len() - i,
        {
            let t: Triangle = self.triangles[i];
            if t[0] as usize >= vertex_count || t[1] as usize >= vertex_count || t[2] as usize
                >= vertex_count {
                assert(!triangle_in_range(self.triangles@[i as int], vertex_count as nat));
                return false;
            }
            proof {
                let next = self.triangles@.take(i + 1);
                assert forall|j: int| 0 <= j < next.len() implies triangle_in_range(
                    #[trigger] next[j],
                    vertex_count as nat,
                ) by {
                    if j < i {
                        assert(next[j] == self.triangles@.take(i as int)[j]);
                    }
                }
            }
            i += 1;
        }
        assert(self.triangles@.take(i as int) =~= self.triangles@);
        true
    }
}

} // verus!
