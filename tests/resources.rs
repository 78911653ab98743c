use render_harness::mesh::MeshError;
use render_harness::resources::{ContextArena, MeshHandle, ProgramHandle};

#[test]
fn handles_are_numbered_per_context() {
    let mut a = ContextArena::new();
    assert_eq!(a.register_mesh(3, None), Ok(MeshHandle { generation: 0, slot: 0 }));
    assert_eq!(a.register_mesh(4, Some(&vec![0, 1, 2, 3])), Ok(MeshHandle { generation: 0, slot: 1 }));
    assert_eq!(a.register_program(), ProgramHandle { generation: 0, slot: 0 });
    assert_eq!(a, ContextArena { generation: 0, meshes: 2, programs: 1 });
}

#[test]
fn invalid_mesh_gets_no_handle() {
    let mut a = ContextArena::new();
    assert_eq!(
        a.register_mesh(2, Some(&vec![0, 2])),
        Err(MeshError::IndexOutOfRange { position: 1, index: 2 })
    );
    assert_eq!(a.register_mesh(0, None), Err(MeshError::EmptyVertices));
    assert_eq!(a, ContextArena::new());
}

#[test]
fn handles_of_a_recreated_context_are_stale() {
    let mut a = ContextArena::new();
    let m = a.register_mesh(3, None).unwrap();
    let p = a.register_program();
    assert!(a.can_draw(m, p));
    a.recreate();
    assert_eq!(a, ContextArena { generation: 1, meshes: 0, programs: 0 });
    assert!(!a.can_draw(m, p));
    let m2 = a.register_mesh(3, None).unwrap();
    let p2 = a.register_program();
    assert!(a.can_draw(m2, p2));
    assert!(!a.can_draw(m, p2));
    assert!(!a.can_draw(m2, p));
}

#[test]
fn unknown_slot_cannot_be_drawn() {
    let mut a = ContextArena::new();
    let m = a.register_mesh(3, None).unwrap();
    let p = a.register_program();
    assert!(!a.can_draw(MeshHandle { generation: 0, slot: 1 }, p));
    assert!(!a.can_draw(m, ProgramHandle { generation: 0, slot: 1 }));
}
