use vstd::prelude::*;
use crate::mesh::{MeshError, validate_mesh, indices_in_range, first_bad_index};

verus! {

/// A mesh uploaded to one context: the context's generation and the mesh's slot in it.
#[derive(Debug, Clone, Copy, PartialEq, Eq, Structural)]
pub struct MeshHandle {
    pub generation: u64,
    pub slot: usize,
}

/// A program linked against one context: the context's generation and the program's slot in it.
#[derive(Debug, Clone, Copy, PartialEq, Eq, Structural)]
pub struct ProgramHandle {
    pub generation: u64,
    pub slot: usize,
}

/// The book of what lives on the current graphics context. Each handle carries
/// the generation of the context it was made on; recreating the context starts
/// a new generation, and the handles of earlier ones are stale.
#[derive(Debug, Clone, Copy, PartialEq, Eq, Structural)]
pub struct ContextArena {
    pub generation: u64,
    pub meshes: usize,
    pub programs: usize,
}

/// `h` names a mesh of the current context of `a`.
pub open spec fn mesh_live(a: ContextArena, h: MeshHandle) -> bool {
    h.generation == a.generation && h.slot < a.meshes
}

/// `h` names a program of the current context of `a`.
pub open spec fn program_live(a: ContextArena, h: ProgramHandle) -> bool {
    h.generation == a.generation && h.slot < a.programs
}

impl ContextArena {
    /// The book of a first context, with nothing on it.
    pub fn new() -> (r: ContextArena)
        ensures
            r == (ContextArena { generation: 0, meshes: 0, programs: 0 }),
    {
        ContextArena { generation: 0, meshes: 0, programs: 0 }
    }

    /// Checks a mesh of `vertex_count` vertices and the given indices, and
    /// books it on the current context. A mesh that fails the check gets no
    /// handle, so it can never be drawn.
    pub fn register_mesh(&mut self, vertex_count: usize, indices: Option<&Vec<u16>>)
        -> (r: Result<MeshHandle, MeshError>)
        requires
            old(self).meshes < usize::MAX,
        ensures
            r is Ok <==> vertex_count > 0 && (indices matches Some(ix) ==> indices_in_range(
                vertex_count as nat,
                ix@,
            )),
            r == Err::<MeshHandle, MeshError>(MeshError::EmptyVertices) <==> vertex_count == 0,
            r matches Err(MeshError::IndexOutOfRange { position, index }) ==> (indices matches Some(
                ix,
            ) && first_bad_index(vertex_count as nat, ix@, position as int) && index
                == ix@[position as int]),
            r matches Ok(h) ==> h == (MeshHandle {
                generation: old(self).generation,
                slot: old(self).meshes,
            }) && *final(self) == (ContextArena { meshes: (old(self).meshes + 1) as usize, ..*old(self) }),
            r is Err ==> *final(self) == *old(self),
    {
        match validate_mesh(vertex_count, indices) {
            Ok(()) => {
                let h = MeshHandle { generation: self.generation, slot: self.meshes };
                self.meshes = self.meshes + 1;
                Ok(h)
            },
            Err(e) => Err(e),
        }
    }

    /// Books a linked program on the current context.
    pub fn register_program(&mut self) -> (h: ProgramHandle)
        requires
            old(self).programs < usize::MAX,
        ensures
            h == (ProgramHandle { generation: old(self).generation, slot: old(self).programs }),
            *final(self) == (ContextArena { programs: (old(self).programs + 1) as usize, ..*old(self) }),
    {
        let h = ProgramHandle { generation: self.generation, slot: self.programs };
        self.programs = self.programs + 1;
        h
    }

    /// Starts the book of a new context: nothing is on it, and every handle
    /// made so far is stale.
    pub fn recreate(&mut self)
        requires
            old(self).generation < u64::MAX,
        ensures
            *final(self) == (ContextArena {
                generation: (old(self).generation + 1) as u64,
                meshes: 0,
                programs: 0,
            }),
    {
        self.generation = self.generation + 1;
        self.meshes = 0;
        self.programs = 0;
    }

    /// Whether `mesh` and `program` both belong to the current context, so
    /// that a draw may use them.
    pub fn can_draw(&self, mesh: MeshHandle, program: ProgramHandle) -> (r: bool)
        ensures
            r == (mesh_live(*self, mesh) && program_live(*self, program)),
    {
        mesh.generation == self.generation && mesh.slot < self.meshes && program.generation
            == self.generation && program.slot < self.programs
    }
}

/// No handle made on a context, or on an earlier one, can be drawn once the
/// context has been recreated.
pub proof fn lemma_recreate_makes_stale(
    a: ContextArena,
    b: ContextArena,
    mesh: MeshHandle,
    program: ProgramHandle,
)
    requires
        mesh.generation <= a.generation,
        program.generation <= a.generation,
        a.generation < u64::MAX,
        b == (ContextArena { generation: (a.generation + 1) as u64, meshes: 0, programs: 0 }),
    ensures
        !mesh_live(b, mesh),
        !program_live(b, program),
{
}

} // verus!
