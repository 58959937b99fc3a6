use houlog::{
    Armature, Capsule, DebugLoggable, Document, IntoLoggable, Line, LogError, Mat4, Mesh, Polygon,
    Polyline, Quat, Scalar, Sphere, Value, Vec3, Vec4,
};

fn s(v: f32) -> Scalar {
    Scalar::from_bits(v.to_bits())
}

fn v3(x: f32, y: f32, z: f32) -> Vec3 {
    Vec3::new(s(x), s(y), s(z))
}

fn m4(m: glam::Mat4) -> Mat4 {
    Mat4::from_cols_array(&m.to_cols_array().map(s))
}

fn floats(value: &Value) -> Vec<f32> {
    match value {
        Value::Numbers(values) => values.iter().map(|n| f32::from_bits(n.to_bits())).collect(),
        other => panic!("not a list of numbers: {:?}", other),
    }
}

fn field<'a>(doc: &'a Document, key: &str) -> &'a Value {
    &doc.fields.iter().find(|(k, _)| k == key).expect("the field is there").1
}

fn json(doc: &Document) -> String {
    let mut map = serde_json::Map::new();
    for (key, value) in &doc.fields {
        let value = match value {
            Value::Number(n) => serde_json::Value::from(f32::from_bits(n.to_bits())),
            Value::Numbers(ns) => serde_json::Value::from(
                ns.iter().map(|n| f32::from_bits(n.to_bits())).collect::<Vec<f32>>(),
            ),
            Value::Integers(is) => serde_json::Value::from(
                is.iter().map(|i| *i as i64).collect::<Vec<i64>>(),
            ),
            Value::Texts(ts) => serde_json::Value::from(ts.clone()),
        };
        map.insert(key.clone(), value);
    }
    serde_json::Value::Object(map).to_string()
}

#[test]
fn polyline_document_holds_parallel_coordinate_lists() {
    let line = Polyline { points: vec![v3(0.0, 0.0, 0.0), v3(1.0, 0.0, 0.0), v3(2.0, 1.0, 0.0)] };
    let doc = line.as_json();
    let keys: Vec<&str> = doc.fields.iter().map(|(k, _)| k.as_str()).collect();
    assert_eq!(keys, vec!["x", "y", "z"]);
    assert_eq!(floats(field(&doc, "x")), vec![0.0, 1.0, 2.0]);
    assert_eq!(floats(field(&doc, "y")), vec![0.0, 0.0, 1.0]);
    assert_eq!(floats(field(&doc, "z")), vec![0.0, 0.0, 0.0]);
    assert_eq!(json(&doc), r#"{"x":[0.0,1.0,2.0],"y":[0.0,0.0,1.0],"z":[0.0,0.0,0.0]}"#);
    assert!(line.validate());
    assert_eq!(line.position(), v3(0.0, 0.0, 0.0));
    assert_eq!(line.kind(), "line");
}

#[test]
fn armature_document_holds_names_parents_and_flat_transforms() {
    let armature = Armature {
        names: vec!["root".to_string(), "child".to_string()],
        parents: vec![-1, 0],
        xforms: vec![
            m4(glam::Mat4::IDENTITY),
            m4(glam::Mat4::from_translation(glam::Vec3::new(1.0, 0.0, 0.0))),
        ],
    };
    assert!(armature.validate());
    let doc = armature.as_json();
    assert_eq!(
        field(&doc, "names"),
        &Value::Texts(vec!["root".to_string(), "child".to_string()])
    );
    assert_eq!(field(&doc, "parents"), &Value::Integers(vec![-1, 0]));
    let xforms = floats(field(&doc, "xforms"));
    assert_eq!(xforms.len(), 32);
    assert_eq!(&xforms[..16], &glam::Mat4::IDENTITY.to_cols_array());
    assert_eq!(&xforms[28..], &[1.0, 0.0, 0.0, 1.0]);
    assert_eq!(armature.position(), v3(0.0, 0.0, 0.0));
    assert_eq!(armature.kind(), "armature");
    assert_eq!(
        json(&doc),
        concat_parts(&[
            r#"{"names":["root","child"],"parents":[-1,0],"xforms":["#,
            "1.0,0.0,0.0,0.0,0.0,1.0,0.0,0.0,0.0,0.0,1.0,0.0,0.0,0.0,0.0,1.0,",
            "1.0,0.0,0.0,0.0,0.0,1.0,0.0,0.0,0.0,0.0,1.0,0.0,1.0,0.0,0.0,1.0]}",
        ])
    );
}

fn concat_parts(parts: &[&str]) -> String {
    parts.iter().map(|p| p.to_string()).collect::<Vec<String>>().join("")
}

#[test]
fn line_is_recorded_as_the_polyline_of_its_ends() {
    let line = Line { start: v3(0.0, 0.0, 0.0), end: v3(1.0, 1.0, 1.0) };
    let polyline: Polyline = line.into_loggable();
    assert_eq!(polyline.points, vec![v3(0.0, 0.0, 0.0), v3(1.0, 1.0, 1.0)]);
    assert_eq!(polyline.position(), v3(0.0, 0.0, 0.0));
    assert_eq!(polyline.kind(), Polyline { points: vec![] }.kind());
    assert_eq!(polyline.kind(), "line");
}

#[test]
fn loggable_values_convert_to_themselves() {
    let point = v3(1.0, 2.0, 3.0);
    assert_eq!(point.into_loggable(), point);
    let sphere = Sphere { center: v3(1.0, 2.0, 3.0), radius: s(2.0) }.into_loggable();
    assert_eq!(sphere.center, v3(1.0, 2.0, 3.0));
    assert_eq!(sphere.radius, s(2.0));
}

#[test]
fn point_is_its_own_position() {
    let point = v3(1.0, -2.0, 3.5);
    assert_eq!(point.kind(), "vec3");
    assert_eq!(point.position(), point);
    assert_eq!(json(&point.as_json()), r#"{"pt":[1.0,-2.0,3.5]}"#);
    assert!(point.validate());
    assert_eq!(point.to_array(), [s(1.0), s(-2.0), s(3.5)]);
}

#[test]
fn transform_sits_at_its_translation() {
    let m = glam::Mat4::from_rotation_translation(
        glam::Quat::from_axis_angle(glam::Vec3::Y, 45f32.to_radians()),
        glam::Vec3::new(5.0, 0.0, 0.0),
    );
    let xform = m4(m);
    assert_eq!(xform.kind(), "mat4");
    assert_eq!(xform.position(), v3(5.0, 0.0, 0.0));
    let doc = xform.as_json();
    assert_eq!(doc.fields.len(), 1);
    assert_eq!(floats(field(&doc, "xform")), m.to_cols_array().to_vec());
    assert_eq!(xform.to_cols_array(), m.to_cols_array().map(s));
    assert_eq!(xform.w_axis, Vec4::new(s(5.0), s(0.0), s(0.0), s(1.0)));
    assert_eq!(xform.w_axis.truncate(), v3(5.0, 0.0, 0.0));
    assert_eq!(Mat4::from_cols(xform.x_axis, xform.y_axis, xform.z_axis, xform.w_axis), xform);
}

#[test]
fn rotation_and_scalar_sit_at_the_origin() {
    let q = Quat::from_xyzw(s(0.1), s(0.2), s(0.3), s(0.9));
    assert_eq!(q.kind(), "quat");
    assert_eq!(q.position(), Vec3::zero());
    assert_eq!(floats(field(&q.as_json(), "quat")), vec![0.1, 0.2, 0.3, 0.9]);

    let x = s(2.5);
    assert_eq!(x.kind(), "float");
    assert_eq!(x.position(), v3(0.0, 0.0, 0.0));
    assert_eq!(x.as_json().fields, vec![("float".to_string(), Value::Number(s(2.5)))]);
    assert_eq!(json(&x.as_json()), r#"{"float":2.5}"#);
    assert_eq!(Scalar::zero().to_bits(), 0);
    assert_eq!(f32::from_bits(Scalar::zero().to_bits()), 0.0);
}

#[test]
fn polygon_has_the_shape_of_a_polyline_and_its_own_kind() {
    let points = vec![v3(0.0, 0.0, 0.0), v3(1.0, 0.0, 0.0), v3(1.0, 1.0, 0.0), v3(0.0, 1.0, 0.0)];
    let polygon = Polygon { points: points.clone() };
    let polyline = Polyline { points };
    assert_eq!(polygon.kind(), "polygon");
    assert_eq!(polygon.as_json(), polyline.as_json());
    assert_eq!(polygon.position(), v3(0.0, 0.0, 0.0));
    assert!(!Polygon { points: vec![] }.validate());
    assert!(!Polyline { points: vec![] }.validate());
    assert_eq!(json(&Polyline { points: vec![] }.as_json()), r#"{"x":[],"y":[],"z":[]}"#);
}

#[test]
fn mesh_document_holds_vertices_indices_and_face_sizes() {
    let mesh = Mesh {
        vertices: vec![v3(0.0, 0.0, 0.0), v3(1.0, 0.0, 0.0), v3(1.0, 1.0, 0.0), v3(0.0, 1.0, 0.0)],
        indices: vec![0, 1, 2, 0, 2, 3],
        index_counts: vec![3, 3],
    };
    assert!(mesh.validate());
    assert_eq!(mesh.kind(), "mesh");
    assert_eq!(mesh.position(), v3(0.0, 0.0, 0.0));
    let doc = mesh.as_json();
    let keys: Vec<&str> = doc.fields.iter().map(|(k, _)| k.as_str()).collect();
    assert_eq!(keys, vec!["x", "y", "z", "i", "c"]);
    assert_eq!(field(&doc, "i"), &Value::Integers(vec![0, 1, 2, 0, 2, 3]));
    assert_eq!(field(&doc, "c"), &Value::Integers(vec![3, 3]));
    assert_eq!(
        json(&doc),
        r#"{"c":[3,3],"i":[0,1,2,0,2,3],"x":[0.0,1.0,1.0,0.0],"y":[0.0,0.0,1.0,1.0],"z":[0.0,0.0,0.0,0.0]}"#
    );
}

#[test]
fn mesh_face_sizes_must_add_up_to_the_indices() {
    let vertices = vec![v3(0.0, 0.0, 0.0)];
    let mesh = |indices: Vec<usize>, index_counts: Vec<usize>| Mesh {
        vertices: vertices.clone(),
        indices,
        index_counts,
    };
    assert!(mesh(vec![], vec![]).validate());
    assert!(mesh(vec![], vec![0, 0]).validate());
    assert!(mesh(vec![0, 0, 0, 0], vec![1, 3]).validate());
    assert!(!mesh(vec![0, 0, 0, 0], vec![1, 2]).validate());
    assert!(!mesh(vec![0, 0, 0, 0], vec![4, 1]).validate());
    assert!(!mesh(vec![0, 0], vec![usize::MAX, 3]).validate());
    assert!(!mesh(vec![0, 0], vec![usize::MAX, usize::MAX, 4]).validate());
    assert!(!mesh(vec![], vec![1]).validate());
    assert!(
        !Mesh { vertices: vec![], indices: vec![], index_counts: vec![] }.validate()
    );
}

#[test]
fn armature_parents_are_roots_or_joints() {
    let armature = |names: usize, parents: Vec<i32>, xforms: usize| Armature {
        names: (0..names).map(|i| format!("joint{}", i)).collect(),
        parents,
        xforms: vec![m4(glam::Mat4::IDENTITY); xforms],
    };
    assert!(armature(1, vec![-1], 1).validate());
    assert!(armature(3, vec![2, -1, 1], 3).validate());
    assert!(armature(2, vec![1, 1], 2).validate());
    assert!(!armature(2, vec![-1, 2], 2).validate());
    assert!(!armature(2, vec![-2, 0], 2).validate());
    assert!(!armature(2, vec![i32::MIN, 0], 2).validate());
    assert!(!armature(2, vec![-1, i32::MAX], 2).validate());
    assert!(!armature(1, vec![-1, 0], 2).validate());
    assert!(!armature(2, vec![-1], 2).validate());
    assert!(!armature(2, vec![-1, 0], 1).validate());
    assert!(!armature(0, vec![], 0).validate());
}

#[test]
fn capsule_names_both_ends_and_sphere_only_its_radius() {
    let capsule = Capsule {
        point_a: v3(0.0, 0.0, 0.0),
        point_b: v3(1.0, 0.0, 0.0),
        radius: s(0.5),
        midpoint: v3(0.5, 0.0, 0.0),
    };
    assert_eq!(capsule.kind(), "capsule");
    assert_eq!(capsule.position(), v3(0.5, 0.0, 0.0));
    assert_eq!(json(&capsule.as_json()), r#"{"a":[0.0,0.0,0.0],"b":[1.0,0.0,0.0],"r":0.5}"#);

    let sphere = Sphere { center: v3(1.0, 2.0, 3.0), radius: s(4.0) };
    assert_eq!(sphere.kind(), "sphere");
    assert_eq!(sphere.position(), v3(1.0, 2.0, 3.0));
    assert_eq!(sphere.as_json().fields, vec![("radius".to_string(), Value::Number(s(4.0)))]);
    assert_eq!(json(&sphere.as_json()), r#"{"radius":4.0}"#);
}

#[test]
fn numbers_are_kept_bit_for_bit() {
    let odd = [f32::NAN, f32::INFINITY, -0.0, f32::MIN_POSITIVE / 2.0, 0.1];
    for value in odd {
        let point = Vec3::new(s(value), s(0.0), s(0.0));
        let doc = point.as_json();
        match field(&doc, "pt") {
            Value::Numbers(values) => assert_eq!(values[0].to_bits(), value.to_bits()),
            other => panic!("not a list of numbers: {:?}", other),
        }
        assert_eq!(point.position().x.to_bits(), value.to_bits());
    }
    assert_ne!(s(0.0), s(-0.0));
}

#[test]
fn documents_are_built_field_by_field_and_copied_whole() {
    let doc = Document::new()
        .with("n", Value::Number(s(1.0)))
        .with("i", Value::indices(&vec![1, 2, usize::MAX]))
        .with("s", Value::signed(&vec![-1, i32::MIN, i32::MAX]))
        .with("t", Value::texts(&vec!["a".to_string(), "".to_string()]));
    assert_eq!(
        doc.fields,
        vec![
            ("n".to_string(), Value::Number(s(1.0))),
            ("i".to_string(), Value::Integers(vec![1, 2, usize::MAX as i128])),
            ("s".to_string(), Value::Integers(vec![-1, i32::MIN as i128, i32::MAX as i128])),
            ("t".to_string(), Value::Texts(vec!["a".to_string(), "".to_string()])),
        ]
    );
    assert_eq!(doc.clone(), doc);
    assert_eq!(Document::new().fields, vec![]);
}

#[test]
fn errors_say_what_went_wrong() {
    assert_eq!(LogError::NotInitialized.message(), "HoudiniDebugLogger not initialized");
    assert_eq!(LogError::AlreadyInitialized.message(), "HoudiniDebugLogger already initialized");
    assert_eq!(
        LogError::MalformedValue.message(),
        "the value breaks the data contract of its type"
    );
    assert_eq!(LogError::NoActiveFrame.message(), "For some reason no active frame was found");
}
