use raytracer::model::ModelError;
use raytracer::obj::{load_model, parse_indices};

#[test]
fn obj_parse_indices_matches_the_full_parser() {
    assert_eq!(parse_indices("3/2/5"), Some((2, 4)));
    assert_eq!(parse_indices("0/1/1"), None);
    assert_eq!(parse_indices("x"), None);
}

#[test]
fn obj_model_drops_material_classes() {
    let text = "v 1 2 3\nvn 0 1 0\nusemtl BMW_E30_M3_CHROME\nf 1/0/1 1/0/1 1/0/1\n";
    let m = load_model(text).unwrap();
    assert_eq!(m.vertices.len(), 3);
    assert_eq!(m.vertices[0].position.x, b"1".to_vec());
    assert_eq!(m.vertices[0].position.y, b"2".to_vec());
    assert_eq!(m.vertices[0].position.z, b"3".to_vec());
    assert_eq!(m.vertices[0].normal.y, b"1".to_vec());
}

#[test]
fn obj_quads_fan_split_like_the_full_parser() {
    let text = "v a - -\nv b - -\nv c - -\nv d - -\nvn n - -\nf 1/0/1 2/0/1 3/0/1 4/0/1\n";
    let m = load_model(text).unwrap();
    let xs: Vec<&[u8]> = m.vertices.iter().map(|v| v.position.x.as_slice()).collect();
    assert_eq!(xs, vec![b"a" as &[u8], b"b", b"c", b"a", b"c", b"d"]);
}

#[test]
fn obj_rejects_like_the_full_parser() {
    let text = "v 1 1 1\nvn 0 0 1\nf 1/0/1 7/0/1 1/0/1\n";
    assert_eq!(load_model(text).unwrap_err(), ModelError::IndexOutOfRange);
    let text2 = "v 1 1 1\nvn 0 0 1\nf 1/0/1 ?? 1/0/1\n";
    assert_eq!(load_model(text2).unwrap_err(), ModelError::MalformedFaceIndex);
}
