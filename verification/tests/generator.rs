use builder::annot::{parse_attr_each, EachConfig};
use builder::classify::{
    classify, extract_inner_type, is_option_type, is_vec_type, last_path_segment, TypeShape,
};
use builder::companion_name;
use builder::model::{
    AnnBody, AnnEntry, AnnValue, Annotation, DefBody, Definition, FieldSchema, GenError,
    InnerType, TypeExpr,
};
use builder::synth::{generate, InitValue, SetterSpec, StoredType};

fn s(x: &str) -> String {
    x.to_string()
}

fn ty(path: &[&str], args: &[&str], text: &str) -> TypeExpr {
    TypeExpr {
        path: path.iter().map(|p| s(p)).collect(),
        args: args.iter().map(|a| InnerType { text: s(a) }).collect(),
        text: s(text),
    }
}

fn field(name: &str, t: TypeExpr, annotations: Vec<Annotation>) -> FieldSchema {
    FieldSchema { name: s(name), ty: t, annotations }
}

fn each_annotation(append_name: &str) -> Annotation {
    Annotation {
        key: s("builder"),
        body: AnnBody::Entries(vec![AnnEntry {
            key: s("each"),
            value: AnnValue::Text(s(append_name)),
        }]),
    }
}

fn named_def(fields: Vec<FieldSchema>) -> Definition {
    Definition { name: s("Command"), body: DefBody::NamedProduct(fields) }
}

#[test]
fn companion_name_appends_suffix() {
    assert_eq!(companion_name(&s("Command")), "CommandBuilder");
}

#[test]
fn last_segment_of_qualified_path() {
    let t = ty(&["std", "option", "Option"], &["String"], "std::option::Option<String>");
    assert_eq!(last_path_segment(&t), Some(&s("Option")));
    assert!(is_option_type(&t));
    assert!(!is_vec_type(&t));
}

#[test]
fn non_path_type_is_plain() {
    let t = ty(&[], &[], "&'static str");
    assert_eq!(last_path_segment(&t), None);
    assert!(!is_option_type(&t));
    assert!(!is_vec_type(&t));
    assert_eq!(classify(&t), Ok(TypeShape::Plain));
}

#[test]
fn classify_recognizes_wrappers() {
    let opt = ty(&["Option"], &["String"], "Option<String>");
    assert_eq!(classify(&opt), Ok(TypeShape::Optional(InnerType { text: s("String") })));
    let vec_t = ty(&["Vec"], &["u32"], "Vec<u32>");
    assert_eq!(classify(&vec_t), Ok(TypeShape::Repeated(InnerType { text: s("u32") })));
    let plain = ty(&["String"], &[], "String");
    assert_eq!(classify(&plain), Ok(TypeShape::Plain));
    let lookalike = ty(&["mycrate", "Wrapper"], &["String"], "mycrate::Wrapper<String>");
    assert_eq!(classify(&lookalike), Ok(TypeShape::Plain));
}

#[test]
fn classify_rejects_bad_wrapper_arity() {
    let none = ty(&["Option"], &[], "Option");
    assert_eq!(classify(&none), Err(GenError::InvalidWrapperShape));
    let two = ty(&["Vec"], &["String", "u8"], "Vec<String, u8>");
    assert_eq!(classify(&two), Err(GenError::InvalidWrapperShape));
    assert_eq!(extract_inner_type(&none), None);
    assert_eq!(extract_inner_type(&two), None);
}

#[test]
fn extract_inner_type_takes_sole_argument() {
    let t = ty(&["Vec"], &["String"], "Vec<String>");
    assert_eq!(extract_inner_type(&t), Some(InnerType { text: s("String") }));
}

#[test]
fn parse_attr_each_not_requested() {
    assert_eq!(parse_attr_each(&vec![]), EachConfig::NotRequested);
    let other = Annotation { key: s("serde"), body: AnnBody::Bare };
    assert_eq!(parse_attr_each(&vec![other]), EachConfig::NotRequested);
}

#[test]
fn parse_attr_each_present() {
    assert_eq!(parse_attr_each(&vec![each_annotation("arg")]), EachConfig::Present(s("arg")));
}

#[test]
fn parse_attr_each_first_configuration_wins() {
    let bare = Annotation { key: s("builder"), body: AnnBody::Bare };
    let anns = vec![bare, each_annotation("arg")];
    assert_eq!(parse_attr_each(&anns), EachConfig::Malformed(0));
    let other = Annotation { key: s("serde"), body: AnnBody::Bare };
    let anns2 = vec![other, each_annotation("arg")];
    assert_eq!(parse_attr_each(&anns2), EachConfig::Present(s("arg")));
}

#[test]
fn parse_attr_each_first_nested_entry_wins() {
    let ann = Annotation {
        key: s("builder"),
        body: AnnBody::Entries(vec![
            AnnEntry { key: s("each"), value: AnnValue::Text(s("item")) },
            AnnEntry { key: s("other"), value: AnnValue::Text(s("x")) },
        ]),
    };
    assert_eq!(parse_attr_each(&vec![ann]), EachConfig::Present(s("item")));
}

#[test]
fn parse_attr_each_malformed_shapes() {
    let wrong_key = Annotation {
        key: s("builder"),
        body: AnnBody::Entries(vec![AnnEntry { key: s("eac"), value: AnnValue::Text(s("x")) }]),
    };
    assert_eq!(parse_attr_each(&vec![wrong_key]), EachConfig::Malformed(0));
    let wrong_value = Annotation {
        key: s("builder"),
        body: AnnBody::Entries(vec![AnnEntry { key: s("each"), value: AnnValue::Other }]),
    };
    assert_eq!(parse_attr_each(&vec![wrong_value]), EachConfig::Malformed(0));
    let empty = Annotation { key: s("builder"), body: AnnBody::Entries(vec![]) };
    assert_eq!(parse_attr_each(&vec![empty]), EachConfig::Malformed(0));
    let bare = Annotation { key: s("builder"), body: AnnBody::Bare };
    let anns = vec![Annotation { key: s("doc"), body: AnnBody::Bare }, bare];
    assert_eq!(parse_attr_each(&anns), EachConfig::Malformed(1));
}

#[test]
fn generate_rejects_unsupported_shapes() {
    for body in [
        DefBody::PositionalProduct,
        DefBody::UnitProduct,
        DefBody::SumType,
        DefBody::OpaqueType,
    ] {
        let def = Definition { name: s("Command"), body };
        assert_eq!(generate(&def).unwrap_err(), GenError::UnsupportedShape);
    }
}

#[test]
fn generate_rejects_invalid_wrapper() {
    let def = named_def(vec![field("env", ty(&["Option"], &[], "Option"), vec![])]);
    assert_eq!(generate(&def).unwrap_err(), GenError::InvalidWrapperShape);
}

#[test]
fn generate_command_surface() {
    let def = named_def(vec![
        field("executable", ty(&["String"], &[], "String"), vec![]),
        field(
            "args",
            ty(&["Vec"], &["String"], "Vec<String>"),
            vec![each_annotation("arg")],
        ),
        field(
            "env",
            ty(&["Option"], &["Vec<String>"], "Option<Vec<String>>"),
            vec![],
        ),
    ]);
    let plan = generate(&def).unwrap();

    assert_eq!(plan.storage_fields.len(), 3);
    assert_eq!(plan.storage_fields[0].name, "executable");
    assert_eq!(plan.storage_fields[0].stored, StoredType::OptionOfDeclared);
    assert_eq!(plan.storage_fields[1].stored, StoredType::OptionOfDeclared);
    assert_eq!(plan.storage_fields[2].name, "env");
    assert_eq!(plan.storage_fields[2].stored, StoredType::AsDeclared);

    assert_eq!(
        plan.initial_values,
        vec![InitValue::Unset, InitValue::EmptySequence, InitValue::Unset]
    );

    assert_eq!(plan.setters.len(), 4);
    assert_eq!(
        plan.setters[0],
        SetterSpec::Overwrite { field: 0, name: s("executable"), param_text: s("String") }
    );
    assert_eq!(
        plan.setters[1],
        SetterSpec::Append { field: 1, name: s("arg"), inner: InnerType { text: s("String") } }
    );
    assert_eq!(
        plan.setters[2],
        SetterSpec::Overwrite { field: 1, name: s("args"), param_text: s("Vec<String>") }
    );
    assert_eq!(
        plan.setters[3],
        SetterSpec::WrapSet {
            field: 2,
            name: s("env"),
            inner: InnerType { text: s("Vec<String>") }
        }
    );

    assert_eq!(plan.assembly.len(), 3);
    assert!(plan.assembly[0].required);
    assert!(plan.assembly[1].required);
    assert!(!plan.assembly[2].required);
    assert_eq!(plan.assembly[1].name, "args");
}

#[test]
fn generate_self_collision_single_setter() {
    let def = named_def(vec![field(
        "values",
        ty(&["Vec"], &["String"], "Vec<String>"),
        vec![each_annotation("values")],
    )]);
    let plan = generate(&def).unwrap();
    let for_field: Vec<&SetterSpec> = plan.setters.iter().collect();
    assert_eq!(for_field.len(), 1);
    assert_eq!(
        plan.setters[0],
        SetterSpec::Append {
            field: 0,
            name: s("values"),
            inner: InnerType { text: s("String") }
        }
    );
}

#[test]
fn generate_malformed_configuration_places_diagnostic() {
    let bad = Annotation {
        key: s("builder"),
        body: AnnBody::Entries(vec![AnnEntry {
            key: s("eac"),
            value: AnnValue::Text(s("arg")),
        }]),
    };
    let def = named_def(vec![
        field("args", ty(&["Vec"], &["String"], "Vec<String>"), vec![bad]),
        field("executable", ty(&["String"], &[], "String"), vec![]),
    ]);
    let plan = generate(&def).unwrap();
    assert_eq!(plan.setters.len(), 2);
    assert_eq!(
        plan.setters[0],
        SetterSpec::Diagnostic {
            field: 0,
            annotation: 0,
            message: s("expected `builder(each = \"...\")`")
        }
    );
    // The malformed repeated field still starts as a present empty sequence.
    assert_eq!(plan.initial_values[0], InitValue::EmptySequence);
    // A malformed configuration on one field does not block the others.
    assert_eq!(
        plan.setters[1],
        SetterSpec::Overwrite { field: 1, name: s("executable"), param_text: s("String") }
    );
}

#[test]
fn generate_ignores_configuration_on_non_repeated_fields() {
    let def = named_def(vec![
        field("name", ty(&["String"], &[], "String"), vec![each_annotation("part")]),
        field(
            "note",
            ty(&["Option"], &["String"], "Option<String>"),
            vec![each_annotation("n")],
        ),
    ]);
    let plan = generate(&def).unwrap();
    assert_eq!(
        plan.setters[0],
        SetterSpec::Overwrite { field: 0, name: s("name"), param_text: s("String") }
    );
    assert_eq!(
        plan.setters[1],
        SetterSpec::WrapSet { field: 1, name: s("note"), inner: InnerType { text: s("String") } }
    );
    assert_eq!(plan.initial_values, vec![InitValue::Unset, InitValue::Unset]);
}
