//! A loaded mesh: its surface together with its vertex attributes.

use vstd::prelude::*;
use crate::attributes::{built_from, AttributeMap, Attributes};
use crate::error::LoadError;
use crate::math::Vec3;
use crate::normals::estimate_normals;
use crate::surface::{group, in_range, SimplicialSurface, Triangle};

verus! {

/// What came of reading and parsing a mesh description.
pub enum MeshSource {
    /// The source could not be opened or read.
    Unreadable,
    /// The parser rejected the content.
    Rejected,
    /// The parser's output: the position of every vertex, each coordinate a
    /// binary32 bit pattern, and the stream of vertex indices, three to a
    /// triangle.
    Parsed { positions: Vec<[u32; 3]>, indices: Vec<u16> },
}

/// What a `Model` holds.
pub struct Mesh {
    pub triangles: Seq<Triangle>,
    pub attributes: Attributes,
}

/// The raw position triples as vectors.
pub open spec fn vectors(raw: Seq<[u32; 3]>) -> Seq<Vec3> {
    Seq::new(raw.len(), |i: int| Vec3::spec_from_bits(raw[i]))
}

/// The mesh that a parser's output describes, or the reason why it
/// describes none. The index stream is looked at first.
pub open spec fn assembled(positions: Seq<[u32; 3]>, indices: Seq<u16>) -> Result<
    Mesh,
    LoadError,
> {
    if indices.len() % 3 != 0 {
        Err(LoadError::MalformedIndexData)
    } else if !in_range(group(indices), positions.len()) {
        Err(LoadError::IndexOutOfRange)
    } else {
        Ok(
            Mesh {
                triangles: group(indices),
                attributes: Attributes {
                    positions: vectors(positions),
                    normals: estimate_normals(group(indices), vectors(positions)),
                },
            },
        )
    }
}

/// What loading from `source` gives.
pub open spec fn loaded(source: MeshSource) -> Result<Mesh, LoadError> {
    match source {
        MeshSource::Unreadable => Err(LoadError::FileNotFound),
        MeshSource::Rejected => Err(LoadError::ParseError),
        MeshSource::Parsed { positions, indices } => assembled(positions@, indices@),
    }
}

/// Whether `r` is the executable counterpart of `expected`: the same error,
/// or a model that holds the expected mesh.
pub open spec fn agrees(r: Result<Model, LoadError>, expected: Result<Mesh, LoadError>) -> bool {
    match r {
        Ok(model) => expected == Ok::<Mesh, LoadError>(model@),
        Err(e) => expected == Err::<Mesh, LoadError>(e),
    }
}

/// One loaded mesh. It owns its surface and its attributes, and the normals
/// are at all times those estimated from its own triangles and positions.
pub struct Model {
    surface: SimplicialSurface,
    map: AttributeMap,
}

impl View for Model {
    type V = Mesh;

    closed spec fn view(&self) -> Mesh {
        Mesh { triangles: self.surface@, attributes: self.map@ }
    }
}

impl Model {
    #[verifier::type_invariant]
    spec fn consistent(&self) -> bool {
        built_from(self.map@, self.surface@)
    }

    /// Builds the model that a parser's output describes: first the surface
    /// from the index stream, then the positions as vectors, then the
    /// normals.
    pub fn assemble(positions: &Vec<[u32; 3]>, indices: &Vec<u16>) -> (r: Result<Model, LoadError>)
        ensures
            agrees(r, assembled(positions@, indices@)),
    {
        let surface = match SimplicialSurface::from_indices(indices) {
            Ok(surface) => surface,
            Err(e) => {
                return Err(e);
            },
        };
        let count: usize = positions.len();
        let mut points: Vec<Vec3> = Vec::with_capacity(count);
        let mut i: usize = 0;
        while i < count
            invariant
                i <= count,
                count == positions@.len(),
                points@.len() == i,
                forall|j: int| 0 <= j < i ==> #[trigger] points@[j] == Vec3::spec_from_bits(
                    positions@[j],
                ),
            decreases count - i,
        {
            points.push(Vec3::from(positions[i]));
            i += 1;
        }
        assert(points@ =~= vectors(positions@));
        match AttributeMap::new(&surface, points) {
            Ok(map) => Ok(Model { surface, map }),
            Err(e) => Err(e),
        }
    }

    /// Loads a model from what reading and parsing a mesh description gave.
    /// An unreadable source and rejected content are failures of their own;
    /// a parsed mesh is assembled.
    pub fn load_obj(source: MeshSource) -> (r: Result<Model, LoadError>)
        ensures
            agrees(r, loaded(source)),
    {
        match source {
            MeshSource::Unreadable => Err(LoadError::FileNotFound),
            MeshSource::Rejected => Err(LoadError::ParseError),
            MeshSource::Parsed { positions, indices } => Model::assemble(&positions, &indices),
        }
    }

    /// The triangles of the model.
    pub fn surface(&self) -> (r: &SimplicialSurface)
        ensures
            r@ == self@.triangles,
            in_range(r@, self@.attributes.positions.len()),
    {
        proof {
            use_type_invariant(self);
        }
        &self.surface
    }

    /// The positions and normals of the model's vertices.
    pub fn map(&self) -> (r: &AttributeMap)
        ensures
            r@ == self@.attributes,
            built_from(r@, self@.triangles),
    {
        proof {
            use_type_invariant(self);
        }
        &self.map
    }
}

} // verus!
