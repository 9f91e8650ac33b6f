//! The shape of a mesh: three parallel arrays of positions, normals and
//! triangle indices.
//!
//! The arrays are uploaded once and never changed, so it is enough to check
//! their shape once, before the upload.

use vstd::prelude::*;

verus! {

/// Why three arrays do not make a mesh.
#[derive(Clone, Copy, Debug, PartialEq, Eq, Structural)]
pub enum MeshError {
    /// There are not as many normals as positions.
    CountMismatch,
    /// The indices do not come in triples.
    PartialTriangle,
    /// The index at this place in the index array addresses no vertex.
    IndexOutOfRange(usize),
}

/// Every index addresses one of `vertices` vertex slots.
pub open spec fn indices_in_range(indices: Seq<u16>, vertices: nat) -> bool {
    forall|i: int| 0 <= i < indices.len() ==> (#[trigger] indices[i] as nat) < vertices
}

/// The arrays make a mesh: each position has its normal, the indices come in
/// triples, and every index addresses a vertex.
pub open spec fn is_mesh(positions: nat, normals: nat, indices: Seq<u16>) -> bool {
    &&& positions == normals
    &&& indices.len() % 3 == 0
    &&& indices_in_range(indices, positions)
}

/// Checks that `positions` positions, `normals` normals and the given
/// indices make a mesh, and says what is wrong where they do not: the
/// counts first, then the triples, then the first index out of range.
pub fn check_mesh(positions: usize, normals: usize, indices: &[u16]) -> (checked: Result<
    (),
    MeshError,
>)
    ensures
        checked is Ok <==> is_mesh(positions as nat, normals as nat, indices@),
        match checked {
            Ok(_) => true,
            Err(MeshError::CountMismatch) => positions != normals,
            Err(MeshError::PartialTriangle) => positions == normals && indices@.len() % 3 != 0,
            Err(MeshError::IndexOutOfRange(at)) => {
                &&& positions == normals
                &&& indices@.len() % 3 == 0
                &&& at < indices@.len()
                &&& indices@[at as int] >= positions
                &&& indices_in_range(indices@.take(at as int), positions as nat)
            },
        },
{
    if positions != normals {
        return Err(MeshError::CountMismatch);
    }
    if indices.len() % 3 != 0 {
        return Err(MeshError::PartialTriangle);
    }
    let mut at: usize = 0;
    while at < indices.len()
        invariant
            positions == normals,
            indices@.len() % 3 == 0,
            at <= indices@.len(),
            indices_in_range(indices@.take(at as int), positions as nat),
        decreases indices@.len() - at,
    {
        if indices[at] as usize >= positions {
            return Err(MeshError::IndexOutOfRange(at));
        }
        assert forall|i: int| 0 <= i < at + 1 implies (#[trigger] indices@.take(at + 1)[i] as nat)
            < positions by {
            if i < at {
                assert(indices@.take(at as int)[i] == indices@[i]);
            }
        }
        at += 1;
    }
    assert(indices@.take(at as int) =~= indices@);
    Ok(())
}

} // verus!
