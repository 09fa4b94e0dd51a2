use mcp::graph::{lookup, referenced_types, schema_type_name, Behavior, Body, Field, Graph, TypeArgs, TypeDef, TypeRef, Variant};
use mcp::propagate::{exclusion_mask, grow_requirements, propagate, propagate_excluding};

fn named(target: usize) -> TypeRef {
    TypeRef::Named { target, scoped: false, args: TypeArgs::Nil }
}

fn field(name: &str, ty: TypeRef) -> Field {
    Field { name: Some(name.to_string()), ty, borrow: false }
}

fn record(name: &str, fields: Vec<Field>) -> TypeDef {
    TypeDef {
        name: name.to_string(),
        params: Vec::new(),
        body: Body::Record(fields),
        deserializable: true,
        scoped: false,
    }
}

fn graph(types: Vec<TypeDef>) -> Graph {
    Graph { types, behaviors: Vec::new() }
}

fn record_fields(g: &Graph, t: usize) -> &Vec<Field> {
    match &g.types[t].body {
        Body::Record(fs) => fs,
        Body::Union(_) => panic!("expected a record"),
    }
}

fn is_scoped_ref(ty: &TypeRef, to: usize) -> bool {
    matches!(ty, TypeRef::Named { target, scoped: true, .. } if *target == to)
}

fn chain_graph() -> Graph {
    graph(vec![
        record("A", vec![field("field", TypeRef::Text)]),
        record("B", vec![field("inner", named(0))]),
        record("C", vec![field("list", TypeRef::Sequence(Box::new(named(1))))]),
    ])
}

#[test]
fn text_leaf_propagates_through_references() {
    let g = chain_graph();
    let p = propagate(&g, &vec![false, false, false]);
    assert_eq!(p.required, vec![true, true, true]);
    assert!(matches!(record_fields(&p.graph, 0)[0].ty, TypeRef::TextView));
    assert!(!record_fields(&p.graph, 0)[0].borrow);
    assert!(is_scoped_ref(&record_fields(&p.graph, 1)[0].ty, 0));
    assert!(record_fields(&p.graph, 1)[0].borrow);
    match &record_fields(&p.graph, 2)[0].ty {
        TypeRef::Sequence(inner) => assert!(is_scoped_ref(inner, 1)),
        _ => panic!("expected a sequence"),
    }
    assert!(p.graph.types.iter().all(|t| t.scoped));
}

#[test]
fn excluded_type_is_a_sink() {
    let g = graph(vec![
        record("D", vec![field("text", TypeRef::Text)]),
        record("E", vec![field("d", named(0))]),
    ]);
    let p = propagate(&g, &vec![true, false]);
    assert_eq!(p.required, vec![false, false]);
    assert!(matches!(record_fields(&p.graph, 0)[0].ty, TypeRef::Text));
    assert!(!p.graph.types[0].scoped);
    assert!(!p.graph.types[1].scoped);
    assert!(matches!(record_fields(&p.graph, 1)[0].ty, TypeRef::Named { scoped: false, .. }));
}

#[test]
fn mutual_references_without_text_require_nothing() {
    let g = graph(vec![
        record("F", vec![field("g", TypeRef::Optional(Box::new(named(1))))]),
        record("G", vec![field("f", TypeRef::Optional(Box::new(named(0))))]),
    ]);
    let p = propagate(&g, &vec![false, false]);
    assert_eq!(p.required, vec![false, false]);
    assert!(p.passes <= 2);
}

#[test]
fn mutual_references_with_text_both_require() {
    let g = graph(vec![
        record("F", vec![field("g", TypeRef::Optional(Box::new(named(1))))]),
        record(
            "G",
            vec![field("f", TypeRef::Optional(Box::new(named(0)))), field("t", TypeRef::Text)],
        ),
    ]);
    let p = propagate(&g, &vec![false, false]);
    assert_eq!(p.required, vec![true, true]);
    assert!(p.passes <= 2);
}

#[test]
fn propagating_twice_changes_nothing() {
    let g = chain_graph();
    let x = vec![false, false, false];
    let first = propagate(&g, &x);
    let second = propagate(&first.graph, &x);
    assert_eq!(second.required, first.required);
    for t in 0..3 {
        let a = record_fields(&first.graph, t);
        let b = record_fields(&second.graph, t);
        assert_eq!(format!("{:?}", a[0].ty), format!("{:?}", b[0].ty));
        assert_eq!(a[0].borrow, b[0].borrow);
        assert_eq!(first.graph.types[t].scoped, second.graph.types[t].scoped);
    }
}

#[test]
fn one_pass_never_shrinks_the_set() {
    let g = chain_graph();
    let x = vec![false, false, false];
    let r0 = vec![false, false, false];
    let r1 = grow_requirements(&g, &x, &r0);
    assert_eq!(r1, vec![true, false, false]);
    let r2 = grow_requirements(&g, &x, &r1);
    assert_eq!(r2, vec![true, true, false]);
    let r3 = grow_requirements(&g, &x, &r2);
    assert_eq!(r3, vec![true, true, true]);
    let start = vec![false, false, true];
    let grown = grow_requirements(&g, &x, &start);
    assert_eq!(grown, vec![true, false, true]);
}

#[test]
fn closure_holds_at_the_fixpoint() {
    let g = chain_graph();
    let p = propagate(&g, &vec![false, false, false]);
    // B refers to A and C refers to B: with A required, so are B and C.
    assert!(p.required[0] && p.required[1] && p.required[2]);
}

#[test]
fn passes_stay_within_the_number_of_types() {
    let mut types = Vec::new();
    types.push(record("T0", vec![field("t", TypeRef::Text)]));
    for i in 1..6 {
        types.push(record(&format!("T{}", i), vec![field("prev", named(i - 1))]));
    }
    let g = graph(types);
    let p = propagate(&g, &vec![false; 6]);
    assert_eq!(p.required, vec![true; 6]);
    assert!(p.passes <= 6);
    let empty = propagate(&graph(Vec::new()), &Vec::new());
    assert_eq!(empty.passes, 0);
    assert!(empty.required.is_empty());
}

#[test]
fn nested_text_is_left_owned() {
    let deep = TypeRef::Sequence(Box::new(TypeRef::Optional(Box::new(TypeRef::Text))));
    let g = graph(vec![record("N", vec![field("deep", deep)])]);
    let p = propagate(&g, &vec![false]);
    assert_eq!(p.required, vec![false]);
    match &record_fields(&p.graph, 0)[0].ty {
        TypeRef::Sequence(inner) => match &**inner {
            TypeRef::Optional(leaf) => assert!(matches!(**leaf, TypeRef::Text)),
            _ => panic!("expected an optional"),
        },
        _ => panic!("expected a sequence"),
    }
}

#[test]
fn one_level_wrapper_text_becomes_a_view() {
    let g = graph(vec![record(
        "W",
        vec![field("names", TypeRef::Sequence(Box::new(TypeRef::Text)))],
    )]);
    let p = propagate(&g, &vec![false]);
    assert_eq!(p.required, vec![true]);
    let f = &record_fields(&p.graph, 0)[0];
    match &f.ty {
        TypeRef::Sequence(inner) => assert!(matches!(**inner, TypeRef::TextView)),
        _ => panic!("expected a sequence"),
    }
    assert!(f.borrow);
}

#[test]
fn generic_argument_text_becomes_a_view() {
    let args = TypeArgs::Cons(Box::new(TypeRef::Text), Box::new(TypeArgs::Nil));
    let g = graph(vec![record(
        "P",
        vec![field("pair", TypeRef::Named { target: 7, scoped: false, args })],
    )]);
    let p = propagate(&g, &vec![false]);
    assert_eq!(p.required, vec![true]);
    match &record_fields(&p.graph, 0)[0].ty {
        TypeRef::Named { target: 7, scoped: false, args: TypeArgs::Cons(head, _) } => {
            assert!(matches!(**head, TypeRef::TextView))
        }
        _ => panic!("expected the external reference"),
    }
}

#[test]
fn free_form_json_map_is_skipped() {
    let g = graph(vec![record("J", vec![field("meta", TypeRef::JsonMap)])]);
    let p = propagate(&g, &vec![false]);
    assert_eq!(p.required, vec![false]);
}

#[test]
fn existing_view_counts_toward_requirement() {
    let g = graph(vec![
        record("V", vec![field("v", TypeRef::TextView)]),
        record("U", vec![field("v", named(0))]),
    ]);
    let p = propagate(&g, &vec![false, false]);
    assert_eq!(p.required, vec![true, true]);
    assert!(!record_fields(&p.graph, 0)[0].borrow);
}

#[test]
fn union_payload_triggers_requirement() {
    let u = TypeDef {
        name: "U".to_string(),
        params: Vec::new(),
        body: Body::Union(vec![
            Variant { name: "Num".to_string(), tagged: true, payload: vec![Field { name: None, ty: TypeRef::Numeric, borrow: false }] },
            Variant { name: "Txt".to_string(), tagged: true, payload: vec![Field { name: None, ty: TypeRef::Text, borrow: false }] },
        ]),
        deserializable: true,
        scoped: false,
    };
    let g = graph(vec![u, record("R", vec![field("u", named(0))])]);
    let p = propagate(&g, &vec![false, false]);
    assert_eq!(p.required, vec![true, true]);
    match &p.graph.types[0].body {
        Body::Union(vs) => {
            assert!(matches!(vs[0].payload[0].ty, TypeRef::Numeric));
            assert!(matches!(vs[1].payload[0].ty, TypeRef::TextView));
            assert_eq!(vs[1].name, "Txt");
        }
        Body::Record(_) => panic!("expected a union"),
    }
}

#[test]
fn types_not_decoded_are_left_alone() {
    let mut t = record("S", vec![field("s", TypeRef::Text)]);
    t.deserializable = false;
    let g = graph(vec![t]);
    let p = propagate(&g, &vec![false]);
    assert_eq!(p.required, vec![false]);
    assert!(matches!(record_fields(&p.graph, 0)[0].ty, TypeRef::Text));
}

#[test]
fn missing_type_is_an_opaque_boundary() {
    let g = graph(vec![record("M", vec![field("ext", named(42))])]);
    let p = propagate(&g, &vec![false]);
    assert_eq!(p.required, vec![false]);
    assert!(matches!(record_fields(&p.graph, 0)[0].ty, TypeRef::Named { target: 42, scoped: false, .. }));
}

#[test]
fn behavior_blocks_gain_the_scope() {
    let mut g = chain_graph();
    g.behaviors.push(Behavior { subject: named(1), contract: None, scoped: false });
    g.behaviors.push(Behavior { subject: named(9), contract: Some(named(0)), scoped: false });
    g.behaviors.push(Behavior { subject: named(9), contract: None, scoped: false });
    let p = propagate(&g, &vec![false, false, false]);
    assert!(p.graph.behaviors[0].scoped);
    assert!(is_scoped_ref(&p.graph.behaviors[0].subject, 1));
    assert!(p.graph.behaviors[1].scoped);
    assert!(!p.graph.behaviors[2].scoped);
}

#[test]
fn exclusion_by_name() {
    let g = graph(vec![
        record("D", vec![field("text", TypeRef::Text)]),
        record("E", vec![field("d", named(0))]),
    ]);
    let x = exclusion_mask(&g, &vec!["D".to_string(), "Other".to_string()]);
    assert_eq!(x, vec![true, false]);
    let p = propagate_excluding(&g, &vec!["D".to_string()]);
    assert_eq!(p.required, vec![false, false]);
    let q = propagate_excluding(&g, &Vec::new());
    assert_eq!(q.required, vec![true, true]);
}

#[test]
fn lookup_by_name() {
    let g = chain_graph();
    assert_eq!(lookup(&g, &"B".to_string()), Some(1));
    assert_eq!(lookup(&g, &"Z".to_string()), None);
}

#[test]
fn schema_type_names() {
    assert_eq!(schema_type_name(&TypeRef::Text), "string");
    assert_eq!(schema_type_name(&TypeRef::Numeric), "number");
    assert_eq!(schema_type_name(&TypeRef::Boolean), "boolean");
    assert_eq!(schema_type_name(&TypeRef::Sequence(Box::new(TypeRef::Text))), "array");
    assert_eq!(schema_type_name(&TypeRef::Optional(Box::new(TypeRef::Boolean))), "boolean");
    assert_eq!(schema_type_name(&named(0)), "object");
    assert_eq!(schema_type_name(&TypeRef::TextView), "unknown");
    assert_eq!(schema_type_name(&TypeRef::Optional(Box::new(TypeRef::TextView))), "unknown");
}

#[test]
fn references_of_a_definition() {
    let args = TypeArgs::Cons(Box::new(named(0)), Box::new(TypeArgs::Nil));
    let g = graph(vec![
        record("A", vec![field("field", TypeRef::Text)]),
        record("B", vec![field("inner", named(0))]),
        record(
            "C",
            vec![
                field("list", TypeRef::Sequence(Box::new(named(1)))),
                field("wrapped", TypeRef::Named { target: 12, scoped: false, args }),
            ],
        ),
    ]);
    assert_eq!(referenced_types(&g, 2), vec![true, true, false]);
    assert_eq!(referenced_types(&g, 1), vec![true, false, false]);
    assert_eq!(referenced_types(&g, 0), vec![false, false, false]);
}
