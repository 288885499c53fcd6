use builder::companion::{Builder, Elem, Value};
use builder::model::{
    AnnBody, AnnEntry, AnnValue, Annotation, DefBody, Definition, FieldSchema, InnerType,
    TypeExpr,
};
use builder::synth::{generate, BuilderSpec, SetterSpec};

fn s(x: &str) -> String {
    x.to_string()
}

fn ty(path: &[&str], args: &[&str], text: &str) -> TypeExpr {
    TypeExpr {
        path: path.iter().map(|p| s(p)).collect(),
        args: args.iter().map(|a| InnerType { text: s(a) }).collect(),
        text: s(text),
    }
}

fn field(name: &str, t: TypeExpr, annotations: Vec<Annotation>) -> FieldSchema {
    FieldSchema { name: s(name), ty: t, annotations }
}

fn each_annotation(append_name: &str) -> Annotation {
    Annotation {
        key: s("builder"),
        body: AnnBody::Entries(vec![AnnEntry {
            key: s("each"),
            value: AnnValue::Text(s(append_name)),
        }]),
    }
}

fn plan_of(fields: Vec<FieldSchema>) -> BuilderSpec {
    let def = Definition { name: s("Command"), body: DefBody::NamedProduct(fields) };
    generate(&def).unwrap()
}

fn setter_index(b: &Builder, wanted: &str) -> usize {
    for (i, setter) in b.plan().setters.iter().enumerate() {
        let name = match setter {
            SetterSpec::Overwrite { name, .. } => name,
            SetterSpec::WrapSet { name, .. } => name,
            SetterSpec::Append { name, .. } => name,
            SetterSpec::Diagnostic { .. } => continue,
        };
        if name == wanted {
            return i;
        }
    }
    panic!("no setter named {}", wanted);
}

fn text(x: &str) -> Value {
    Value::Single(Elem::Text(s(x)))
}

fn text_list(xs: &[&str]) -> Value {
    Value::Sequence(xs.iter().map(|x| Elem::Text(s(x))).collect())
}

#[test]
fn builder_for_runs_whole_pass() {
    let def = Definition {
        name: s("Point"),
        body: DefBody::NamedProduct(vec![
            field("x", ty(&["u64"], &[], "u64"), vec![]),
            field("y", ty(&["u64"], &[], "u64"), vec![]),
        ]),
    };
    let mut b = builder::builder_for(&def).unwrap();
    assert_eq!(b.assemble().unwrap_err().name, "x");
    let x = setter_index(&b, "x");
    let y = setter_index(&b, "y");
    b.store(x, Value::Single(Elem::Int(1)));
    b.store(y, Value::Single(Elem::Int(2)));
    let inst = b.assemble().unwrap();
    assert_eq!(
        inst.values,
        vec![Some(Value::Single(Elem::Int(1))), Some(Value::Single(Elem::Int(2)))]
    );

    let sum = Definition { name: s("E"), body: DefBody::SumType };
    assert!(builder::builder_for(&sum).is_err());
}

#[test]
fn command_scenario() {
    let plan = plan_of(vec![
        field("executable", ty(&["String"], &[], "String"), vec![]),
        field(
            "args",
            ty(&["Vec"], &["String"], "Vec<String>"),
            vec![each_annotation("arg")],
        ),
        field(
            "env",
            ty(&["Option"], &["Vec<String>"], "Option<Vec<String>>"),
            vec![],
        ),
    ]);
    let mut b = Builder::new(plan);
    let arg = setter_index(&b, "arg");
    b.append(arg, Elem::Text(s("ls")));
    b.append(arg, Elem::Text(s("-l")));

    let missing = b.assemble().unwrap_err();
    assert_eq!(missing.name, "executable");

    let executable = setter_index(&b, "executable");
    b.store(executable, text("ls"));
    let inst = b.assemble().unwrap();
    assert_eq!(inst.values[0], Some(text("ls")));
    assert_eq!(inst.values[1], Some(text_list(&["ls", "-l"])));
    assert_eq!(inst.values[2], None);
}

#[test]
fn optional_setter_yields_present_value() {
    let plan = plan_of(vec![
        field("name", ty(&["String"], &[], "String"), vec![]),
        field("note", ty(&["Option"], &["String"], "Option<String>"), vec![]),
    ]);
    let mut b = Builder::new(plan);
    let name = setter_index(&b, "name");
    let note = setter_index(&b, "note");
    b.store(name, text("x"));
    b.store(note, text("hello"));
    let inst = b.assemble().unwrap();
    assert_eq!(inst.values[1], Some(text("hello")));
}

#[test]
fn append_then_overwrite_replaces_whole_sequence() {
    let plan = plan_of(vec![field(
        "args",
        ty(&["Vec"], &["String"], "Vec<String>"),
        vec![each_annotation("arg")],
    )]);
    let mut b = Builder::new(plan);
    let arg = setter_index(&b, "arg");
    b.append(arg, Elem::Text(s("a")));
    b.append(arg, Elem::Text(s("b")));
    b.append(arg, Elem::Text(s("c")));
    assert_eq!(b.assemble().unwrap().values[0], Some(text_list(&["a", "b", "c"])));

    let args = setter_index(&b, "args");
    b.store(args, text_list(&["z"]));
    assert_eq!(b.assemble().unwrap().values[0], Some(text_list(&["z"])));
    // Identical overwrites are idempotent.
    b.store(args, text_list(&["z"]));
    assert_eq!(b.assemble().unwrap().values[0], Some(text_list(&["z"])));
    // Appending continues from the overwritten sequence.
    b.append(arg, Elem::Text(s("w")));
    assert_eq!(b.assemble().unwrap().values[0], Some(text_list(&["z", "w"])));
}

#[test]
fn self_collision_appends_through_field_name() {
    let plan = plan_of(vec![field(
        "values",
        ty(&["Vec"], &["String"], "Vec<String>"),
        vec![each_annotation("values")],
    )]);
    let mut b = Builder::new(plan);
    assert_eq!(b.plan().setters.len(), 1);
    let values = setter_index(&b, "values");
    b.append(values, Elem::Text(s("one")));
    b.append(values, Elem::Text(s("two")));
    assert_eq!(b.assemble().unwrap().values[0], Some(text_list(&["one", "two"])));
}

#[test]
fn untouched_configured_repeated_field_assembles_empty() {
    let plan = plan_of(vec![
        field("name", ty(&["String"], &[], "String"), vec![]),
        field(
            "args",
            ty(&["Vec"], &["String"], "Vec<String>"),
            vec![each_annotation("arg")],
        ),
    ]);
    let mut b = Builder::new(plan);
    let name = setter_index(&b, "name");
    b.store(name, text("x"));
    let inst = b.assemble().unwrap();
    assert_eq!(inst.values[1], Some(text_list(&[])));
}

#[test]
fn unconfigured_repeated_field_is_required() {
    let plan = plan_of(vec![field("args", ty(&["Vec"], &["String"], "Vec<String>"), vec![])]);
    let mut b = Builder::new(plan);
    assert_eq!(b.assemble().unwrap_err().name, "args");
    let args = setter_index(&b, "args");
    b.store(args, text_list(&["a"]));
    assert_eq!(b.assemble().unwrap().values[0], Some(text_list(&["a"])));
}

#[test]
fn missing_fields_reported_in_declaration_order() {
    let plan = plan_of(vec![
        field("first", ty(&["String"], &[], "String"), vec![]),
        field("second", ty(&["String"], &[], "String"), vec![]),
        field("third", ty(&["Option"], &["String"], "Option<String>"), vec![]),
    ]);
    let mut b = Builder::new(plan);
    assert_eq!(b.assemble().unwrap_err().name, "first");
    // The builder stays usable after a failed assembly.
    let first = setter_index(&b, "first");
    b.store(first, text("1"));
    assert_eq!(b.assemble().unwrap_err().name, "second");
    let second = setter_index(&b, "second");
    b.store(second, text("2"));
    let inst = b.assemble().unwrap();
    assert_eq!(inst.values[0], Some(text("1")));
    assert_eq!(inst.values[1], Some(text("2")));
    assert_eq!(inst.values[2], None);
}

#[test]
fn plain_round_trip_matches_direct_construction() {
    let plan = plan_of(vec![
        field("a", ty(&["String"], &[], "String"), vec![]),
        field("b", ty(&["u64"], &[], "u64"), vec![]),
    ]);
    let mut b = Builder::new(plan);
    let a = setter_index(&b, "a");
    let bs = setter_index(&b, "b");
    b.store(a, text("hello"));
    b.store(bs, Value::Single(Elem::Int(7)));
    let inst = b.assemble().unwrap();
    // Directly constructed instance from the same values.
    let direct = vec![Some(text("hello")), Some(Value::Single(Elem::Int(7)))];
    assert_eq!(inst.values, direct);
    // Assembly is repeatable and reads, never clears, the stored values.
    let again = b.assemble().unwrap();
    assert_eq!(again.values, direct);
}

#[test]
fn malformed_field_has_no_functional_setter() {
    let bad = Annotation {
        key: s("builder"),
        body: AnnBody::Entries(vec![AnnEntry {
            key: s("option"),
            value: AnnValue::Text(s("arg")),
        }]),
    };
    let plan = plan_of(vec![
        field("args", ty(&["Vec"], &["String"], "Vec<String>"), vec![bad]),
        field("name", ty(&["String"], &[], "String"), vec![]),
    ]);
    let functional = plan
        .setters
        .iter()
        .filter(|st| match st {
            SetterSpec::Diagnostic { .. } => false,
            SetterSpec::Overwrite { field, .. } => *field == 0,
            SetterSpec::WrapSet { field, .. } => *field == 0,
            SetterSpec::Append { field, .. } => *field == 0,
        })
        .count();
    assert_eq!(functional, 0);
    match &plan.setters[0] {
        SetterSpec::Diagnostic { field, annotation, message } => {
            assert_eq!(*field, 0);
            assert_eq!(*annotation, 0);
            assert_eq!(message, "expected `builder(each = \"...\")`");
        }
        other => panic!("expected a diagnostic, got {:?}", other),
    }
}
