use jvmti_abi::assemble::{
    jni_to_union_impl, Declaration, Error, Generated, Shape, Visibility,
};
use jvmti_abi::config::Config;
use jvmti_abi::fields::FieldDecl;
use jvmti_abi::layout::Member;
use jvmti_abi::version::Version;

fn v(major: u16, minor: u16) -> Version {
    Version { major, minor }
}

fn field(name: &str, added: Option<&str>) -> FieldDecl {
    FieldDecl { name: name.to_string(), added: added.map(|s| s.to_string()) }
}

fn config(name: &str, major: u16, minor: u16) -> Config {
    Config { name: name.to_string(), version_default: v(major, minor) }
}

fn named_struct(name: &str, fields: Vec<FieldDecl>) -> Declaration {
    Declaration {
        visibility: Visibility::Public,
        name: name.to_string(),
        shape: Shape::NamedStruct,
        fields,
    }
}

fn generate(cfg: Config, input: Declaration) -> Generated {
    match jni_to_union_impl(cfg, input) {
        Ok(generated) => generated,
        Err(error) => panic!("{:?}", error),
    }
}

fn field_names(input: &[&str], members: &[Member]) -> Vec<String> {
    members
        .iter()
        .map(|member| match member {
            Member::Field(index) => input[*index].to_string(),
            Member::Padding(number) => format!("_padding_{}", number),
        })
        .collect()
}

#[test]
fn end_to_end() {
    let input = named_struct(
        "Table",
        vec![field("A", None), field("B", Some("9")), field("C", Some("21"))],
    );
    let generated = generate(config("JNI", 1, 1), input);
    let names = ["A", "B", "C"];

    assert_eq!(generated.structs.len(), 3);
    assert_eq!(generated.structs[0].version, v(1, 1));
    assert_eq!(generated.structs[0].name, "Table_1_1");
    assert_eq!(field_names(&names, &generated.structs[0].members), vec!["A"]);
    assert_eq!(generated.structs[1].version, v(9, 0));
    assert_eq!(generated.structs[1].name, "Table_9");
    assert_eq!(field_names(&names, &generated.structs[1].members), vec!["A", "B"]);
    assert_eq!(generated.structs[2].version, v(21, 0));
    assert_eq!(generated.structs[2].name, "Table_21");
    assert_eq!(field_names(&names, &generated.structs[2].members), vec!["A", "B", "C"]);

    assert_eq!(generated.union_type.name, "Table");
    assert_eq!(generated.visibility, Visibility::Public);
    let alternatives = &generated.union_type.alternatives;
    assert_eq!(alternatives.len(), 3);
    assert_eq!(alternatives[0].name, "v1_1");
    assert_eq!(alternatives[0].struct_name, "Table_1_1");
    assert_eq!(alternatives[0].doc, "valid when runtime version ≥ JNI_VERSION_1_1");
    assert_eq!(alternatives[1].name, "v9");
    assert_eq!(alternatives[1].struct_name, "Table_9");
    assert_eq!(alternatives[1].doc, "valid when runtime version ≥ JNI_VERSION_9");
    assert_eq!(alternatives[2].name, "v21");
    assert_eq!(alternatives[2].struct_name, "Table_21");
    assert_eq!(alternatives[2].doc, "valid when runtime version ≥ JNI_VERSION_21");
}

#[test]
fn four_fields_of_three_versions_give_three_variants() {
    let input = named_struct(
        "T",
        vec![
            field("a", None),
            field("b", Some("1.1")),
            field("c", Some("9")),
            field("d", Some("21")),
        ],
    );
    let generated = generate(config("JNI", 1, 1), input);
    let versions: Vec<Version> = generated.structs.iter().map(|s| s.version).collect();
    assert_eq!(versions, vec![v(1, 1), v(9, 0), v(21, 0)]);
    assert_eq!(generated.union_type.alternatives.len(), 3);
    assert_eq!(
        generated.structs[0].members,
        vec![Member::Field(0), Member::Field(1)]
    );
}

#[test]
fn variant_for_9_in_a_generated_union() {
    let input = named_struct(
        "T",
        vec![
            field("first", None),
            field("late", Some("21")),
            field("middle", Some("9")),
            field("later", Some("21")),
        ],
    );
    let names = ["first", "late", "middle", "later"];
    let generated = generate(config("JNI", 1, 1), input);
    assert_eq!(generated.structs.len(), 3);
    assert_eq!(generated.structs[1].version, v(9, 0));
    assert_eq!(
        field_names(&names, &generated.structs[1].members),
        vec!["first", "_padding_0", "middle"]
    );
    assert_eq!(field_names(&names, &generated.structs[0].members), vec!["first"]);
    assert_eq!(
        field_names(&names, &generated.structs[2].members),
        vec!["first", "late", "middle", "later"]
    );
}

#[test]
fn each_alternative_has_its_own_extent() {
    let input = named_struct(
        "T",
        vec![
            field("r", Some("reserved")),
            field("a", None),
            field("b", Some("9")),
            field("c", None),
            field("d", Some("1.1")),
            field("e", Some("11")),
        ],
    );
    let generated = generate(config("JVMTI", 1, 0), input);
    let lengths: Vec<usize> = generated.structs.iter().map(|s| s.members.len()).collect();
    assert_eq!(lengths, vec![4, 5, 5, 6, 6]);
    let names: Vec<&str> = generated.union_type.alternatives.iter().map(|a| a.name.as_str()).collect();
    assert_eq!(names, vec!["v1", "v1_1", "v9", "v11", "reserved"]);
    assert_eq!(generated.structs[4].name, "T_reserved");
    assert_eq!(generated.structs[4].version, v(999, 0));
    assert_eq!(
        generated.structs[0].members,
        vec![Member::Padding(0), Member::Field(1), Member::Padding(1), Member::Field(3)]
    );
    assert_eq!(
        generated.union_type.alternatives[4].doc,
        "valid when runtime version ≥ JVMTI_VERSION_reserved"
    );
    for (s, a) in generated.structs.iter().zip(generated.union_type.alternatives.iter()) {
        assert_eq!(s.name, a.struct_name);
        assert!(matches!(s.members.last(), Some(Member::Field(_))));
    }
}

#[test]
fn only_the_sentinel_itself_gets_the_reserved_names() {
    let input = named_struct(
        "S",
        vec![field("x", Some("reserved")), field("y", Some("999.5"))],
    );
    let generated = generate(config("JNI", 1, 1), input);
    assert_eq!(generated.structs.len(), 2);
    assert_eq!(generated.structs[0].version, v(999, 0));
    assert_eq!(generated.structs[0].name, "S_reserved");
    assert_eq!(generated.structs[0].members, vec![Member::Field(0)]);
    assert_eq!(generated.structs[1].version, v(999, 5));
    assert_eq!(generated.structs[1].name, "S_999_5");
    assert_eq!(generated.structs[1].members, vec![Member::Field(0), Member::Field(1)]);
    let alternatives = &generated.union_type.alternatives;
    assert_eq!(alternatives[0].name, "reserved");
    assert_eq!(alternatives[0].struct_name, "S_reserved");
    assert_eq!(alternatives[1].name, "v999_5");
    assert_eq!(alternatives[1].struct_name, "S_999_5");
    assert_eq!(alternatives[1].doc, "valid when runtime version ≥ JNI_VERSION_999_5");
}

#[test]
fn one_field_under_a_default_of_1_0() {
    let input = named_struct("T", vec![field("f", None)]);
    let generated = generate(config("JVMTI", 1, 0), input);
    assert_eq!(generated.structs.len(), 1);
    assert_eq!(generated.structs[0].name, "T_1");
    assert_eq!(generated.structs[0].members, vec![Member::Field(0)]);
    assert_eq!(generated.union_type.name, "T");
    assert_eq!(generated.union_type.alternatives.len(), 1);
    assert_eq!(generated.union_type.alternatives[0].name, "v1");
    assert_eq!(generated.union_type.alternatives[0].struct_name, "T_1");
    assert_eq!(
        generated.union_type.alternatives[0].doc,
        "valid when runtime version ≥ JVMTI_VERSION_1"
    );
}

#[test]
fn malformed_tag_names_the_field_and_generates_nothing() {
    let input = named_struct(
        "T",
        vec![field("a", None), field("b", Some("abc")), field("c", Some("also bad"))],
    );
    assert_eq!(jni_to_union_impl(config("JNI", 1, 1), input).err(), Some(Error::Parse { field: 1 }));
    assert_eq!(
        Error::Parse { field: 1 }.message(),
        "Expected \"major.minor\" version number or \"reserved\""
    );
}

#[test]
fn only_a_struct_with_named_fields_is_accepted() {
    for shape in [Shape::TupleStruct, Shape::UnitStruct, Shape::Enum, Shape::Union] {
        let input = Declaration {
            visibility: Visibility::Inherited,
            name: "T".to_string(),
            shape,
            fields: vec![field("a", Some("abc"))],
        };
        assert_eq!(jni_to_union_impl(config("JNI", 1, 1), input).err(), Some(Error::Structure));
    }
    assert_eq!(Error::Structure.message(), "expected a struct with fields");
}

#[test]
fn a_struct_without_fields_gives_an_empty_union() {
    let generated = generate(config("JNI", 1, 1), named_struct("Empty", Vec::new()));
    assert!(generated.structs.is_empty());
    assert!(generated.union_type.alternatives.is_empty());
    assert_eq!(generated.union_type.name, "Empty");
}

#[test]
fn visibility_is_carried_over() {
    for visibility in [
        Visibility::Inherited,
        Visibility::Public,
        Visibility::Restricted("crate".to_string()),
    ] {
        let expected = match &visibility {
            Visibility::Inherited => Visibility::Inherited,
            Visibility::Public => Visibility::Public,
            Visibility::Restricted(path) => Visibility::Restricted(path.clone()),
        };
        let input = Declaration {
            visibility,
            name: "T".to_string(),
            shape: Shape::NamedStruct,
            fields: vec![field("a", None)],
        };
        assert_eq!(generate(config("JNI", 1, 1), input).visibility, expected);
    }
}

#[test]
fn generation_is_repeatable() {
    let make = || {
        named_struct(
            "T",
            vec![field("a", Some("9")), field("b", None), field("c", Some("reserved"))],
        )
    };
    let first = generate(config("N", 1, 0), make());
    let second = generate(config("N", 1, 0), make());
    assert_eq!(first.structs.len(), second.structs.len());
    for (a, b) in first.structs.iter().zip(second.structs.iter()) {
        assert_eq!(a.version, b.version);
        assert_eq!(a.name, b.name);
        assert_eq!(a.members, b.members);
    }
    for (a, b) in first
        .union_type
        .alternatives
        .iter()
        .zip(second.union_type.alternatives.iter())
    {
        assert_eq!(a.name, b.name);
        assert_eq!(a.struct_name, b.struct_name);
        assert_eq!(a.doc, b.doc);
    }
}
