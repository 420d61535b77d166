use pts4d::mesh::{Face, MeshError, Triangle, TriangleList};

#[test]
fn keeps_triangles_in_order_and_drops_points_and_lines() {
    let faces = vec![
        Face::Point(0),
        Face::Triangle(0, 1, 2),
        Face::Line(1, 2),
        Face::Triangle(2, 3, 0),
    ];
    let list = TriangleList::from_faces(4, &faces).unwrap();
    assert_eq!(list.vertex_count(), 4);
    assert_eq!(list.len(), 2);
    assert_eq!(list.get(0), Triangle { a: 0, b: 1, c: 2 });
    assert_eq!(list.get(1), Triangle { a: 2, b: 3, c: 0 });
}

#[test]
fn keeps_winding_order() {
    let faces = vec![Face::Triangle(2, 1, 0)];
    let list = TriangleList::from_faces(3, &faces).unwrap();
    assert_eq!(list.get(0), Triangle { a: 2, b: 1, c: 0 });
}

#[test]
fn empty_face_list_gives_no_triangles() {
    let list = TriangleList::from_faces(0, &Vec::new()).unwrap();
    assert_eq!(list.len(), 0);
    assert_eq!(list.vertex_count(), 0);
}

#[test]
fn refuses_triangle_past_the_vertex_list() {
    let faces = vec![Face::Triangle(0, 1, 2), Face::Triangle(0, 3, 1)];
    assert_eq!(
        TriangleList::from_faces(3, &faces).err(),
        Some(MeshError::VertexOutOfRange { face: 1, index: 3 })
    );
}

#[test]
fn reports_first_bad_corner_of_first_bad_triangle() {
    let faces = vec![Face::Triangle(5, 7, 9), Face::Triangle(8, 8, 8)];
    assert_eq!(
        TriangleList::from_faces(6, &faces).err(),
        Some(MeshError::VertexOutOfRange { face: 0, index: 7 })
    );
    let faces = vec![Face::Triangle(0, 1, 6)];
    assert_eq!(
        TriangleList::from_faces(6, &faces).err(),
        Some(MeshError::VertexOutOfRange { face: 0, index: 6 })
    );
}

#[test]
fn index_equal_to_vertex_count_is_out_of_range() {
    let faces = vec![Face::Triangle(3, 0, 1)];
    assert_eq!(
        TriangleList::from_faces(3, &faces).err(),
        Some(MeshError::VertexOutOfRange { face: 0, index: 3 })
    );
}

#[test]
fn points_and_lines_are_not_held_to_the_vertex_count() {
    let faces = vec![Face::Point(100), Face::Line(7, 200)];
    let list = TriangleList::from_faces(1, &faces).unwrap();
    assert_eq!(list.len(), 0);
}
