use raytracer::model::{load_model, material_class, parse_indices, ModelError};

#[test]
fn parse_indices_takes_first_and_third_parts() {
    assert_eq!(parse_indices("3/2/5"), Some((2, 4)));
    assert_eq!(parse_indices("1/1/1"), Some((0, 0)));
    assert_eq!(parse_indices("12/99/7"), Some((11, 6)));
}

#[test]
fn parse_indices_rejects_short_and_bad_fields() {
    assert_eq!(parse_indices("3"), None);
    assert_eq!(parse_indices("3/2"), None);
    assert_eq!(parse_indices("a/b/c"), None);
    assert_eq!(parse_indices(""), None);
    assert_eq!(parse_indices("1//"), None);
}

#[test]
fn parse_indices_rejects_zero() {
    assert_eq!(parse_indices("0/1/1"), None);
    assert_eq!(parse_indices("1/1/0"), None);
}

#[test]
fn parse_indices_ignores_extra_parts() {
    assert_eq!(parse_indices("2/7/4/9"), Some((1, 3)));
}

#[test]
fn material_class_knows_reflective_names() {
    assert_eq!(material_class(b"BMW_E30_M3_CHROME"), 1);
    assert_eq!(material_class(b"Brake_Disc"), 1);
    assert_eq!(material_class(b"Logo_Plane"), 1);
    assert_eq!(material_class(b"BMW_E30_M3_BODY"), 0);
    assert_eq!(material_class(b""), 0);
}

#[test]
fn empty_text_is_an_empty_model() {
    let m = load_model("").unwrap();
    assert_eq!(m.vertices.len(), 0);
}

#[test]
fn one_triangle_resolves_points_and_normals() {
    let text = "v 1.0 2.0 3.0\nv 4.0 5.0 6.0\nv 7.0 8.0 9.0\nvn 0 1 0\nf 1/0/1 2/0/1 3/0/1\n";
    let m = load_model(text).unwrap();
    assert_eq!(m.vertices.len(), 3);
    assert_eq!(m.vertices[0].position.x, b"1.0".to_vec());
    assert_eq!(m.vertices[0].position.y, b"2.0".to_vec());
    assert_eq!(m.vertices[0].position.z, b"3.0".to_vec());
    assert_eq!(m.vertices[1].position.x, b"4.0".to_vec());
    assert_eq!(m.vertices[2].position.x, b"7.0".to_vec());
    assert_eq!(m.vertices[0].normal.x, b"0".to_vec());
    assert_eq!(m.vertices[0].normal.y, b"1".to_vec());
    assert_eq!(m.vertices[0].material, 0);
}

#[test]
fn quad_splits_into_two_triangles_along_first_diagonal() {
    let text = "v a1 a2 a3\nv b1 b2 b3\nv c1 c2 c3\nv d1 d2 d3\nvn n1 n2 n3\nf 1/x/1 2/x/1 3/x/1 4/x/1\n";
    let m = load_model(text).unwrap();
    assert_eq!(m.vertices.len(), 6);
    let xs: Vec<&[u8]> = m.vertices.iter().map(|v| v.position.x.as_slice()).collect();
    assert_eq!(xs, vec![b"a1" as &[u8], b"b1", b"c1", b"a1", b"c1", b"d1"]);
}

#[test]
fn material_switch_applies_to_later_faces_only() {
    let text = "v 1 1 1\nvn 0 0 1\nf 1/0/1 1/0/1 1/0/1\nusemtl BMW_E30_M3_LENS\nf 1/0/1 1/0/1 1/0/1\nusemtl Unknown_Paint\nf 1/0/1 1/0/1 1/0/1\n";
    let m = load_model(text).unwrap();
    assert_eq!(m.vertices.len(), 9);
    assert_eq!(m.vertices[0].material, 0);
    assert_eq!(m.vertices[3].material, 1);
    assert_eq!(m.vertices[6].material, 0);
}

#[test]
fn malformed_face_field_is_rejected() {
    let text = "v 1 1 1\nvn 0 0 1\nf 1/0/1 nope 1/0/1\n";
    assert_eq!(load_model(text).unwrap_err(), ModelError::MalformedFaceIndex);
}

#[test]
fn face_index_past_tables_is_rejected() {
    let text = "v 1 1 1\nvn 0 0 1\nf 1/0/1 2/0/1 1/0/1\n";
    assert_eq!(load_model(text).unwrap_err(), ModelError::IndexOutOfRange);
    let text2 = "v 1 1 1\nvn 0 0 1\nf 1/0/2 1/0/1 1/0/1\n";
    assert_eq!(load_model(text2).unwrap_err(), ModelError::IndexOutOfRange);
}

#[test]
fn malformed_field_wins_over_bad_index() {
    let text = "v 1 1 1\nvn 0 0 1\nf 9/0/9 bad 1/0/1\n";
    assert_eq!(load_model(text).unwrap_err(), ModelError::MalformedFaceIndex);
}

#[test]
fn unknown_lines_are_ignored() {
    let text = "# comment\no object\nv 1 1 1\nvn 0 0 1\ns off\nf 1/0/1 1/0/1 1/0/1\nv too few\n";
    let m = load_model(text).unwrap();
    assert_eq!(m.vertices.len(), 3);
}

#[test]
fn windows_line_endings_are_accepted() {
    let text = "v 1 1 1\r\nvn 0 0 1\r\nf 1/0/1 1/0/1 1/0/1\r\n";
    let m = load_model(text).unwrap();
    assert_eq!(m.vertices.len(), 3);
    assert_eq!(m.vertices[0].position.x, b"1".to_vec());
}

#[test]
fn text_without_final_newline_parses() {
    let text = "v 1 1 1\nvn 0 0 1\nf 1/0/1 1/0/1 1/0/1";
    let m = load_model(text).unwrap();
    assert_eq!(m.vertices.len(), 3);
}
