use blendshapes::document::Document;
use blendshapes::document::Node;
use blendshapes::document::Property;
use blendshapes::error::Error;
use blendshapes::filter::extract;
use blendshapes::filter::extract_blendshapes;
use blendshapes::filter::NameFilter;
use blendshapes::scalar::Scalar;
use blendshapes::shape::BlendShape;

fn scalar(value: f64) -> Scalar {
    Scalar::from_bits(value.to_bits())
}

fn scalars(values: &[f64]) -> Vec<Scalar> {
    values.iter().map(|v| scalar(*v)).collect()
}

fn bits(values: &[Scalar]) -> Vec<u64> {
    values.iter().map(|v| v.to_bits()).collect()
}

fn double_bits(values: &[f64]) -> Vec<u64> {
    values.iter().map(|v| v.to_bits()).collect()
}

fn leaf(name: &str, properties: Vec<Property>) -> Node {
    Node { name: name.to_string(), properties, children: Vec::new() }
}

fn geometry(id: Property, name: Property, children: Vec<Node>) -> Node {
    Node { name: "Geometry".to_string(), properties: vec![id, name], children }
}

fn text(value: &str) -> Property {
    Property::String(value.to_string())
}

fn shape_node(id: i64, name: &str, indices: Vec<i64>, offsets: &[f64]) -> Node {
    geometry(
        Property::I64(id),
        text(name),
        vec![
            leaf("Properties70", Vec::new()),
            leaf("Indexes", vec![Property::I64Array(indices)]),
            leaf("Vertices", vec![Property::F64Array(scalars(offsets))]),
        ],
    )
}

#[test]
fn decodes_id_name_indices_and_offsets() {
    let node = shape_node(42, "head_cprintSmile\u{0}\u{1}Geometry", vec![1, 2], &[1.0, 0.0, 0.0, 2.0, 0.0, 0.0]);
    let shape = BlendShape::new(&node, "cprint", "cprint").unwrap();
    assert_eq!(shape.id, 42);
    assert_eq!(shape.name, "head_cprintSmile");
    assert_eq!(shape.indices, vec![1, 2]);
    assert_eq!(bits(&shape.vertices), double_bits(&[1.0, 0.0, 0.0, 2.0, 0.0, 0.0]));
    assert!(shape.normals.is_none());
}

#[test]
fn strips_the_control_token_wherever_it_stands() {
    let node = shape_node(1, "\u{0}\u{1}GeometryA\u{0}\u{1}GeometryB\u{0}\u{1}Geometry", vec![0], &[0.0, 0.0, 0.0]);
    let shape = BlendShape::new(&node, "x", "y").unwrap();
    assert_eq!(shape.name, "AB");
}

#[test]
fn keeps_a_name_without_the_control_token() {
    let node = shape_node(1, "Geometry_cprint", vec![0], &[0.0, 0.0, 0.0]);
    let shape = BlendShape::new(&node, "cprint", "cprint").unwrap();
    assert_eq!(shape.name, "Geometry_cprint");
}

#[test]
fn renames_the_first_occurrence_only() {
    let node = shape_node(1, "cprint_cprint\u{0}\u{1}Geometry", vec![0], &[0.0, 0.0, 0.0]);
    let shape = BlendShape::new(&node, "cprint", "face").unwrap();
    assert_eq!(shape.name, "face_cprint");
}

#[test]
fn rename_is_not_word_aware() {
    let node = shape_node(1, "scprinter", vec![0], &[0.0, 0.0, 0.0]);
    let shape = BlendShape::new(&node, "cprint", "X").unwrap();
    assert_eq!(shape.name, "sXer");
}

#[test]
fn rename_sees_the_name_after_the_token_is_stripped() {
    let node = shape_node(1, "cpr\u{0}\u{1}Geometryint", vec![0], &[0.0, 0.0, 0.0]);
    let shape = BlendShape::new(&node, "cprint", "face").unwrap();
    assert_eq!(shape.name, "face");
}

#[test]
fn id_that_is_no_integer_is_a_schema_mismatch() {
    let node = geometry(Property::I32(7), text("a"), Vec::new());
    assert_eq!(BlendShape::new(&node, "a", "a").err(), Some(Error::SchemaMismatch));
    let node = geometry(text("7"), text("a"), Vec::new());
    assert_eq!(BlendShape::new(&node, "a", "a").err(), Some(Error::SchemaMismatch));
    let node = geometry(Property::F64(scalar(7.0)), text("a"), Vec::new());
    assert_eq!(BlendShape::new(&node, "a", "a").err(), Some(Error::SchemaMismatch));
}

#[test]
fn name_that_is_no_string_is_a_schema_mismatch() {
    let node = geometry(Property::I64(7), Property::I64(8), Vec::new());
    assert_eq!(BlendShape::new(&node, "a", "a").err(), Some(Error::SchemaMismatch));
    let node = geometry(Property::I64(7), Property::Bytes(vec![97]), Vec::new());
    assert_eq!(BlendShape::new(&node, "a", "a").err(), Some(Error::SchemaMismatch));
}

#[test]
fn missing_properties_are_a_schema_mismatch() {
    let node = leaf("Geometry", Vec::new());
    assert_eq!(BlendShape::new(&node, "a", "a").err(), Some(Error::SchemaMismatch));
    let node = leaf("Geometry", vec![Property::I64(1)]);
    assert_eq!(BlendShape::new(&node, "a", "a").err(), Some(Error::SchemaMismatch));
}

#[test]
fn missing_children_give_empty_arrays() {
    let node = geometry(Property::I64(5), text("n"), Vec::new());
    let shape = BlendShape::new(&node, "a", "a").unwrap();
    assert_eq!(shape.id, 5);
    assert!(shape.indices.is_empty());
    assert!(shape.vertices.is_empty());
    assert!(shape.normals.is_none());
}

#[test]
fn wrong_typed_arrays_give_empty_arrays() {
    let node = geometry(
        Property::I64(5),
        text("n"),
        vec![
            leaf("a", Vec::new()),
            leaf("b", vec![Property::F64Array(scalars(&[1.0]))]),
            leaf("c", vec![Property::I64Array(vec![1, 2, 3])]),
            leaf("d", vec![Property::BoolArray(vec![true])]),
        ],
    );
    let shape = BlendShape::new(&node, "a", "a").unwrap();
    assert!(shape.indices.is_empty());
    assert!(shape.vertices.is_empty());
    assert_eq!(shape.normals.map(|n| n.len()), Some(0));
}

#[test]
fn child_without_properties_gives_an_empty_array() {
    let node = geometry(
        Property::I64(5),
        text("n"),
        vec![leaf("a", Vec::new()), leaf("b", Vec::new()), leaf("c", Vec::new())],
    );
    let shape = BlendShape::new(&node, "a", "a").unwrap();
    assert!(shape.indices.is_empty());
    assert!(shape.vertices.is_empty());
}

#[test]
fn only_the_first_property_of_a_child_is_read() {
    let node = geometry(
        Property::I64(5),
        text("n"),
        vec![
            leaf("a", Vec::new()),
            leaf("b", vec![Property::I32(0), Property::I64Array(vec![1])]),
            leaf("c", vec![Property::F64Array(scalars(&[1.0, 2.0, 3.0])), Property::I32(0)]),
        ],
    );
    let shape = BlendShape::new(&node, "a", "a").unwrap();
    assert!(shape.indices.is_empty());
    assert_eq!(bits(&shape.vertices), double_bits(&[1.0, 2.0, 3.0]));
}

#[test]
fn narrow_integer_indices_are_lengthened() {
    let node = geometry(
        Property::I64(5),
        text("n"),
        vec![
            leaf("a", Vec::new()),
            leaf("b", vec![Property::I32Array(vec![0, 3, i32::MAX, -1, i32::MIN])]),
            leaf("c", Vec::new()),
        ],
    );
    let shape = BlendShape::new(&node, "a", "a").unwrap();
    assert_eq!(shape.indices, vec![0i64, 3, 2147483647, -1, -2147483648]);
}

#[test]
fn single_precision_offsets_are_widened() {
    let singles = [1.0f32, -0.5, 0.1, 3.0e-40, f32::MAX, 0.0];
    let node = geometry(
        Property::I64(5),
        text("n"),
        vec![
            leaf("a", Vec::new()),
            leaf("b", vec![Property::I64Array(vec![0, 1])]),
            leaf("c", vec![Property::F32Array(singles.iter().map(|x| x.to_bits()).collect())]),
        ],
    );
    let shape = BlendShape::new(&node, "a", "a").unwrap();
    let expected: Vec<u64> = singles.iter().map(|x| (*x as f64).to_bits()).collect();
    assert_eq!(bits(&shape.vertices), expected);
}

#[test]
fn normals_come_from_the_fourth_child() {
    let mut node = shape_node(9, "n", vec![4], &[1.0, 2.0, 3.0]);
    node.children.push(leaf("Normals", vec![Property::F64Array(scalars(&[0.0, 1.0, 0.0]))]));
    let shape = BlendShape::new(&node, "a", "a").unwrap();
    assert_eq!(shape.normals.map(|n| bits(&n)), Some(double_bits(&[0.0, 1.0, 0.0])));
}

#[test]
fn normals_widen_like_offsets() {
    let mut node = shape_node(9, "n", vec![4], &[1.0, 2.0, 3.0]);
    node.children.push(leaf("Normals", vec![Property::F32Array(vec![0.25f32.to_bits(), 1.0f32.to_bits(), 0])]));
    let shape = BlendShape::new(&node, "a", "a").unwrap();
    assert_eq!(shape.normals.map(|n| bits(&n)), Some(double_bits(&[0.25, 1.0, 0.0])));
}

#[test]
fn normals_are_read_with_five_children_too() {
    let mut node = shape_node(9, "n", vec![4], &[1.0, 2.0, 3.0]);
    node.children.push(leaf("Normals", vec![Property::F64Array(scalars(&[0.0, 0.0, 1.0]))]));
    node.children.push(leaf("More", Vec::new()));
    let shape = BlendShape::new(&node, "a", "a").unwrap();
    assert_eq!(shape.normals.map(|n| bits(&n)), Some(double_bits(&[0.0, 0.0, 1.0])));
}

#[test]
fn extractors_tell_the_types_apart() {
    assert_eq!(BlendShape::extract_string(&text("abc")), Some("abc".to_string()));
    assert_eq!(BlendShape::extract_string(&Property::I64(1)), None);
    assert_eq!(BlendShape::extract_string(&Property::Bytes(vec![97])), None);
    assert_eq!(BlendShape::extract_i64(&Property::I64(-3)), Some(-3));
    assert_eq!(BlendShape::extract_i64(&Property::I32(3)), None);
    assert_eq!(BlendShape::extract_i64(&Property::I16(3)), None);
    assert_eq!(BlendShape::extract_i64(&Property::Bool(true)), None);
    assert_eq!(BlendShape::extract_i64(&Property::F32(0)), None);
    assert_eq!(BlendShape::extract_i64_array(&Property::I64Array(vec![1, 2])), Some(vec![1, 2]));
    assert_eq!(BlendShape::extract_i64_array(&Property::I32Array(vec![1, -2])), Some(vec![1, -2]));
    assert_eq!(BlendShape::extract_i64_array(&Property::I64(1)), None);
    assert_eq!(BlendShape::extract_i64_array(&Property::F64Array(Vec::new())), None);
    assert_eq!(
        BlendShape::extract_f64_array(&Property::F64Array(scalars(&[1.5, -2.0]))).map(|v| bits(&v)),
        Some(double_bits(&[1.5, -2.0]))
    );
    assert_eq!(
        BlendShape::extract_f64_array(&Property::F32Array(vec![1.5f32.to_bits()])).map(|v| bits(&v)),
        Some(double_bits(&[1.5]))
    );
    assert!(BlendShape::extract_f64_array(&Property::I64Array(vec![1])).is_none());
    assert!(BlendShape::extract_f64_array(&Property::F64(scalar(1.0))).is_none());
}

#[test]
fn node_accessors_check_the_position() {
    let node = shape_node(1, "n", vec![7], &[1.0, 2.0, 3.0]);
    assert!(node.property(0).is_some());
    assert!(node.property(1).is_some());
    assert!(node.property(2).is_none());
    assert!(node.child(2).is_some());
    assert!(node.child(3).is_none());
    assert!(node.first_property_of_child(0).is_none());
    assert!(node.first_property_of_child(1).is_some());
    assert!(node.first_property_of_child(3).is_none());
    assert_eq!(node.child(1).map(|c| c.name.clone()), Some("Indexes".to_string()));
}

#[test]
fn tear_variant_is_excluded() {
    let filter = NameFilter::plain_variants("cprint");
    assert!(!filter.accepts("head__cprintTearShape"));
    assert!(filter.accepts("head__cprintSmileShape"));
    let node = shape_node(1, "head__cprintTearShape", vec![0], &[0.0, 0.0, 0.0]);
    assert!(!filter.selects(&node));
    let node = shape_node(1, "head__cprintSmileShape", vec![0], &[0.0, 0.0, 0.0]);
    assert!(filter.selects(&node));
}

#[test]
fn every_excluded_variant_is_excluded() {
    let filter = NameFilter::plain_variants("cprint");
    assert_eq!(filter.target, "cprint");
    assert_eq!(filter.excluded, vec!["cbs", "Tear", "Mouth", "Eyelashes", "Eyes"]);
    for name in ["cprint_cbs_1", "cprintTear", "Mouthcprint", "cprint.Eyelashes", "Eyes_cprint"] {
        assert!(!filter.accepts(name), "{}", name);
    }
    for name in ["cprint_CBS_1", "cprinttear", "cprintmouth", "cprint.Eyelash", "Eye_cprint", "cprint"] {
        assert!(filter.accepts(name), "{}", name);
    }
}

#[test]
fn name_without_the_target_is_not_chosen() {
    let filter = NameFilter::plain_variants("cprint");
    assert!(!filter.accepts("head__Smile"));
    assert!(!filter.accepts("CPRINT"));
    assert!(!filter.accepts(""));
}

#[test]
fn filter_with_own_exclusions() {
    let filter = NameFilter::new("a", vec!["b".to_string()]);
    assert!(filter.accepts("a"));
    assert!(filter.accepts("xay"));
    assert!(!filter.accepts("ab"));
    assert!(!filter.accepts("c"));
    let open = NameFilter::new("", Vec::new());
    assert!(open.accepts(""));
    assert!(open.accepts("anything"));
}

#[test]
fn only_geometry_nodes_are_chosen() {
    let filter = NameFilter::plain_variants("cprint");
    let mut node = shape_node(1, "cprintSmile", vec![0], &[0.0, 0.0, 0.0]);
    assert!(filter.selects(&node));
    node.name = "Model".to_string();
    assert!(!filter.selects(&node));
    node.name = "geometry".to_string();
    assert!(!filter.selects(&node));
    node.name = "Geometry2".to_string();
    assert!(!filter.selects(&node));
}

#[test]
fn node_without_a_name_property_is_not_chosen() {
    let filter = NameFilter::plain_variants("cprint");
    assert!(!filter.selects(&leaf("Geometry", Vec::new())));
    assert!(!filter.selects(&leaf("Geometry", vec![text("cprint")])));
    assert!(!filter.selects(&leaf("Geometry", vec![Property::I64(1), Property::I64(2)])));
    assert!(filter.selects(&leaf("Geometry", vec![text("x"), text("cprint")])));
}

#[test]
fn extraction_keeps_order_and_notes_failures() {
    let nodes = vec![
        shape_node(1, "cprintA\u{0}\u{1}Geometry", vec![0], &[1.0, 1.0, 1.0]),
        shape_node(2, "other\u{0}\u{1}Geometry", vec![0], &[1.0, 1.0, 1.0]),
        geometry(Property::I32(3), text("cprintBroken"), Vec::new()),
        shape_node(4, "cprintTear\u{0}\u{1}Geometry", vec![0], &[1.0, 1.0, 1.0]),
        leaf("Model", vec![Property::I64(5), text("cprintModel")]),
        shape_node(6, "cprintB\u{0}\u{1}Geometry", vec![2, 3], &[1.0, 1.0, 1.0, 2.0, 2.0, 2.0]),
        geometry(text("x"), text("cprintAlsoBroken"), Vec::new()),
    ];
    let filter = NameFilter::plain_variants("cprint");
    let extraction = extract_blendshapes(&nodes, &filter, "cprint", "face");
    let shapes = extraction.blendshapes.blendshapes;
    assert_eq!(shapes.len(), 2);
    assert_eq!(shapes[0].id, 1);
    assert_eq!(shapes[0].name, "faceA");
    assert_eq!(shapes[1].id, 6);
    assert_eq!(shapes[1].name, "faceB");
    assert_eq!(shapes[1].indices, vec![2, 3]);
    assert_eq!(extraction.rejected, vec![2, 6]);
}

#[test]
fn extraction_of_nothing_is_empty() {
    let filter = NameFilter::plain_variants("cprint");
    let extraction = extract_blendshapes(&Vec::new(), &filter, "cprint", "cprint");
    assert!(extraction.blendshapes.blendshapes.is_empty());
    assert!(extraction.rejected.is_empty());
}

fn document_with(records: Vec<Node>, before: usize) -> Document {
    let mut children: Vec<Node> = Vec::new();
    for k in 0..before {
        children.push(leaf(&format!("Top{}", k), Vec::new()));
    }
    children.push(Node { name: "Objects".to_string(), properties: Vec::new(), children: records });
    children.push(leaf("Connections", Vec::new()));
    Document { children }
}

#[test]
fn geometry_records_are_the_children_of_the_ninth_node() {
    let document = document_with(vec![shape_node(1, "cprintA", vec![0], &[1.0, 1.0, 1.0])], 8);
    let records = document.geometry_records().unwrap();
    assert_eq!(records.len(), 1);
    assert_eq!(records[0].name, "Geometry");
}

#[test]
fn document_without_a_ninth_node_is_a_schema_mismatch() {
    let document = document_with(Vec::new(), 3);
    assert_eq!(document.geometry_records().err(), Some(Error::SchemaMismatch));
    let document = Document { children: Vec::new() };
    assert_eq!(document.geometry_records().err(), Some(Error::SchemaMismatch));
    assert_eq!(extract(&document, "cprint", "cprint").err(), Some(Error::SchemaMismatch));
    let mut eight = document_with(Vec::new(), 6);
    assert_eq!(eight.children.len(), 8);
    assert_eq!(eight.geometry_records().err(), Some(Error::SchemaMismatch));
    eight.children.push(leaf("Ninth", Vec::new()));
    assert!(eight.geometry_records().is_ok());
}

#[test]
fn extract_reads_the_plain_variants_of_a_document() {
    let document = document_with(
        vec![
            shape_node(1, "head_cprintSmile\u{0}\u{1}Geometry", vec![0], &[1.0, 1.0, 1.0]),
            shape_node(2, "head_cprintEyes\u{0}\u{1}Geometry", vec![0], &[1.0, 1.0, 1.0]),
            shape_node(3, "head_cprint_cbs\u{0}\u{1}Geometry", vec![0], &[1.0, 1.0, 1.0]),
            shape_node(4, "head_cprintMouthOpen\u{0}\u{1}Geometry", vec![0], &[1.0, 1.0, 1.0]),
            shape_node(5, "head_cprintEyelashes\u{0}\u{1}Geometry", vec![0], &[1.0, 1.0, 1.0]),
            shape_node(6, "head_cprintFrown\u{0}\u{1}Geometry", vec![0], &[1.0, 1.0, 1.0]),
        ],
        8,
    );
    let extraction = extract(&document, "cprint", "morph").unwrap();
    let names: Vec<String> = extraction.blendshapes.blendshapes.iter().map(|s| s.name.clone()).collect();
    assert_eq!(names, vec!["head_morphSmile", "head_morphFrown"]);
    assert!(extraction.rejected.is_empty());
}
