use render_harness::mesh::{check_indices, validate_mesh, MeshError};

#[test]
fn indices_within_range_pass() {
    assert_eq!(check_indices(3, &vec![0, 1, 2, 2, 1, 0]), Ok(()));
    assert_eq!(check_indices(0, &vec![]), Ok(()));
}

#[test]
fn index_equal_to_vertex_count_fails() {
    assert_eq!(
        check_indices(3, &vec![0, 1, 3]),
        Err(MeshError::IndexOutOfRange { position: 2, index: 3 })
    );
}

#[test]
fn first_bad_index_is_reported() {
    assert_eq!(
        check_indices(4, &vec![0, 9, 2, 7]),
        Err(MeshError::IndexOutOfRange { position: 1, index: 9 })
    );
}

#[test]
fn mesh_without_vertices_fails() {
    assert_eq!(validate_mesh(0, None), Err(MeshError::EmptyVertices));
    assert_eq!(validate_mesh(0, Some(&vec![0])), Err(MeshError::EmptyVertices));
}

#[test]
fn mesh_without_indices_passes() {
    assert_eq!(validate_mesh(3, None), Ok(()));
}

#[test]
fn mesh_with_out_of_range_index_fails() {
    let indices: Vec<u16> = vec![0, 1, 2, 1, 2, 531];
    assert_eq!(
        validate_mesh(531, Some(&indices)),
        Err(MeshError::IndexOutOfRange { position: 5, index: 531 })
    );
    assert_eq!(validate_mesh(532, Some(&indices)), Ok(()));
}
