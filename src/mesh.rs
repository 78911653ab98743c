use vstd::prelude::*;

verus! {

/// Why a mesh cannot be uploaded.
#[derive(Debug, Clone, Copy, PartialEq, Eq, Structural)]
pub enum MeshError {
    /// The mesh has no vertices.
    EmptyVertices,
    /// The index at `position` names a vertex that does not exist.
    IndexOutOfRange { position: usize, index: u16 },
}

/// Every index names one of the `vertex_count` vertices.
pub open spec fn indices_in_range(vertex_count: nat, indices: Seq<u16>) -> bool {
    forall|i: int| 0 <= i < indices.len() ==> (#[trigger] indices[i]) < vertex_count
}

/// `p` is the first position whose index names no vertex.
pub open spec fn first_bad_index(vertex_count: nat, indices: Seq<u16>, p: int) -> bool {
    &&& 0 <= p < indices.len()
    &&& indices[p] >= vertex_count
    &&& indices_in_range(vertex_count, indices.take(p))
}

/// Checks that every index names one of the `vertex_count` vertices, and
/// reports the first one that does not.
pub fn check_indices(vertex_count: usize, indices: &Vec<u16>) -> (r: Result<(), MeshError>)
    ensures
        r is Ok <==> indices_in_range(vertex_count as nat, indices@),
        r matches Err(e) ==> (e matches MeshError::IndexOutOfRange { position, index }
            && first_bad_index(vertex_count as nat, indices@, position as int)
            && index == indices@[position as int]),
{
    let mut i: usize = 0;
    while i < indices.len()
        invariant
            i <= indices.len(),
            indices_in_range(vertex_count as nat, indices@.take(i as int)),
        decreases indices.len() - i,
    {
        let index = indices[i];
        if index as usize >= vertex_count {
            return Err(MeshError::IndexOutOfRange { position: i, index });
        }
        proof {
            assert forall|k: int| 0 <= k < i + 1 implies
                (#[trigger] indices@.take(i + 1)[k]) < vertex_count by {
                if k < i {
                    assert(indices@.take(i + 1)[k] == indices@.take(i as int)[k]);
                }
            }
        }
        i = i + 1;
    }
    assert(indices@.take(i as int) =~= indices@);
    Ok(())
}

/// Checks a mesh before its buffers are created: it must have at least one
/// vertex, and each index, where there are indices, must name one of them.
pub fn validate_mesh(vertex_count: usize, indices: Option<&Vec<u16>>) -> (r: Result<(), MeshError>)
    ensures
        r is Ok <==> vertex_count > 0 && (indices matches Some(ix) ==> indices_in_range(
            vertex_count as nat,
            ix@,
        )),
        r == Err::<(), MeshError>(MeshError::EmptyVertices) <==> vertex_count == 0,
        r matches Err(MeshError::IndexOutOfRange { position, index }) ==> (indices matches Some(
            ix,
        ) && first_bad_index(vertex_count as nat, ix@, position as int) && index
            == ix@[position as int]),
{
    if vertex_count == 0 {
        return Err(MeshError::EmptyVertices);
    }
    match indices {
        Some(ix) => check_indices(vertex_count, ix),
        None => Ok(()),
    }
}

} // verus!
