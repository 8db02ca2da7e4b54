use std::collections::hash_map::DefaultHasher;
use std::hash::{Hash, Hasher};

use tysh::derive::{
    hashing_enum, hashing_field, hashing_fields, hashing_struct, hashing_variant,
    hashing_variants, override_name, parse_attrs, Arguments, Attribute, DataDef, DeriveError,
    FieldDef, ItemDef, VariantDef,
};
use tysh::shape::Composite;
use tysh::{HashSink, Shape, TypeHash};

fn attribute(path: &str, args: Option<&str>) -> Attribute {
    Attribute::read(path, args)
}

fn holding(args: Option<Arguments>) -> Attribute {
    Attribute { path: "type_hash".to_string(), args }
}

fn given(name: &str) -> Arguments {
    Arguments::NameValue { keyed: true, value: Some(name.to_string()) }
}

fn name_is(args: &str) -> Vec<Attribute> {
    vec![attribute("type_hash", Some(args))]
}

fn field(attrs: Vec<Attribute>, ident: Option<&str>) -> FieldDef<u32> {
    FieldDef { attrs, ident: ident.map(|name| name.to_string()), ty: 7 }
}

#[test]
fn no_attribute_gives_no_override() {
    assert_eq!(parse_attrs(&vec![]), Ok(None));
}

#[test]
fn other_attributes_are_passed_over() {
    let attrs = vec![
        attribute("doc", Some("hidden")),
        attribute("serde", Some("rename = \"x\"")),
        attribute("inline", None),
    ];
    assert_eq!(parse_attrs(&attrs), Ok(None));
}

#[test]
fn longer_path_is_another_attribute() {
    let attrs = vec![attribute("tysh::type_hash", Some("name = \"x\""))];
    assert_eq!(parse_attrs(&attrs), Ok(None));
}

#[test]
fn name_override_is_read() {
    assert_eq!(parse_attrs(&name_is("name = \"A\"")), Ok(Some("A".to_string())));
}

#[test]
fn name_override_is_found_among_other_attributes() {
    let attrs = vec![
        attribute("doc", Some("hidden")),
        attribute("type_hash", Some("name = \"inner\"")),
        attribute("allow", Some("dead_code")),
    ];
    assert_eq!(parse_attrs(&attrs), Ok(Some("inner".to_string())));
}

#[test]
fn name_override_is_unescaped() {
    assert_eq!(
        parse_attrs(&name_is("name = \"a\\\"b\\n\"")),
        Ok(Some("a\"b\n".to_string()))
    );
    assert_eq!(parse_attrs(&name_is("name = r#\"a\"b\"#")), Ok(Some("a\"b".to_string())));
}

#[test]
fn repeated_attribute_is_refused() {
    let attrs = vec![
        attribute("type_hash", Some("name = \"a\"")),
        attribute("type_hash", Some("name = \"a\"")),
    ];
    assert_eq!(parse_attrs(&attrs), Err(DeriveError::RepeatedAttribute));
}

#[test]
fn repeated_attribute_is_refused_before_its_arguments_are_read() {
    let attrs = vec![attribute("type_hash", None), attribute("type_hash", Some("name = 1"))];
    assert_eq!(parse_attrs(&attrs), Err(DeriveError::RepeatedAttribute));
}

#[test]
fn name_that_is_no_string_literal_is_refused() {
    assert_eq!(parse_attrs(&name_is("name = 1")), Err(DeriveError::NameNotLiteral));
    assert_eq!(parse_attrs(&name_is("name = b\"A\"")), Err(DeriveError::NameNotLiteral));
    assert_eq!(parse_attrs(&name_is("name = A")), Err(DeriveError::NameNotLiteral));
}

#[test]
fn another_key_is_refused() {
    assert_eq!(parse_attrs(&name_is("rename = \"A\"")), Err(DeriveError::UnexpectedKey));
    assert_eq!(parse_attrs(&name_is("a::name = \"A\"")), Err(DeriveError::UnexpectedKey));
}

#[test]
fn other_forms_are_refused() {
    assert_eq!(parse_attrs(&name_is("name")), Err(DeriveError::InvalidAttribute));
    assert_eq!(parse_attrs(&name_is("name(\"A\")")), Err(DeriveError::InvalidAttribute));
    assert_eq!(parse_attrs(&name_is("")), Err(DeriveError::InvalidAttribute));
    assert_eq!(parse_attrs(&name_is("\"A\"")), Err(DeriveError::InvalidAttribute));
    assert_eq!(parse_attrs(&name_is("name = \"A\" extra")), Err(DeriveError::InvalidAttribute));
    assert_eq!(parse_attrs(&name_is("name = \"A")), Err(DeriveError::InvalidAttribute));
}

#[test]
fn attribute_without_parentheses_is_refused() {
    assert_eq!(
        parse_attrs(&vec![attribute("type_hash", None)]),
        Err(DeriveError::InvalidAttribute)
    );
}

#[test]
fn override_name_reads_parsed_arguments() {
    assert_eq!(
        override_name(&Arguments::NameValue { keyed: true, value: Some("n".to_string()) }),
        Ok("n".to_string())
    );
    assert_eq!(
        override_name(&Arguments::NameValue { keyed: true, value: None }),
        Err(DeriveError::NameNotLiteral)
    );
    assert_eq!(
        override_name(&Arguments::NameValue { keyed: false, value: Some("n".to_string()) }),
        Err(DeriveError::UnexpectedKey)
    );
    assert_eq!(
        override_name(&Arguments::NameValue { keyed: false, value: None }),
        Err(DeriveError::UnexpectedKey)
    );
    assert_eq!(override_name(&Arguments::Other), Err(DeriveError::InvalidAttribute));
}

#[test]
fn errors_carry_their_messages() {
    assert_eq!(DeriveError::UnsupportedUnion.message(), "Unions are not supported");
    assert_eq!(
        DeriveError::RepeatedAttribute.message(),
        "type_hash attribute can only be used once per field"
    );
    assert_eq!(DeriveError::NameNotLiteral.message(), "name attribute must be a string literal");
    assert_eq!(
        DeriveError::UnexpectedKey.message(),
        "invalid type_hash attribute: expected `name = \"...\"`"
    );
    assert_eq!(DeriveError::InvalidAttribute.message(), "invalid type_hash attribute");
}

#[test]
fn field_takes_its_identifier() {
    let member = hashing_field(field(vec![], Some("a"))).unwrap();
    assert_eq!(member.name, "a");
    assert_eq!(member.ty, 7);
}

#[test]
fn field_takes_its_override() {
    let member = hashing_field(field(name_is("name = \"b\""), Some("a"))).unwrap();
    assert_eq!(member.name, "b");
}

#[test]
fn positional_field_takes_the_anonymous_marker() {
    let member = hashing_field(field(vec![], None)).unwrap();
    assert_eq!(member.name, "@ano@");
    let member = hashing_field(field(name_is("name = \"first\""), None)).unwrap();
    assert_eq!(member.name, "first");
}

#[test]
fn field_with_a_bad_attribute_is_refused() {
    assert_eq!(
        hashing_field(field(name_is("name = 1"), Some("a"))).unwrap_err(),
        DeriveError::NameNotLiteral
    );
}

#[test]
fn fields_keep_their_order_and_types() {
    let fields = vec![
        FieldDef { attrs: vec![], ident: Some("x".to_string()), ty: 1u32 },
        FieldDef { attrs: name_is("name = \"z\""), ident: Some("y".to_string()), ty: 2u32 },
        FieldDef { attrs: vec![], ident: None, ty: 3u32 },
    ];
    let members = hashing_fields(fields).unwrap();
    let seen: Vec<(&str, u32)> = members.iter().map(|m| (m.name.as_str(), m.ty)).collect();
    assert_eq!(seen, vec![("x", 1), ("z", 2), ("@ano@", 3)]);
    assert!(hashing_fields(Vec::<FieldDef<u32>>::new()).unwrap().is_empty());
}

#[test]
fn first_bad_field_decides_the_error() {
    let fields = vec![
        field(vec![], Some("x")),
        field(name_is("rename = \"z\""), Some("y")),
        field(name_is("name = 1"), Some("z")),
    ];
    assert_eq!(hashing_fields(fields).unwrap_err(), DeriveError::UnexpectedKey);
}

#[test]
fn variant_resolves_its_name_and_members() {
    let variant = hashing_variant(VariantDef {
        attrs: name_is("name = \"B\""),
        ident: "Changed".to_string(),
        fields: vec![field(vec![], Some("x")), field(vec![], None)],
    })
    .unwrap();
    assert_eq!(variant.name, "B");
    let names: Vec<&str> = variant.members.iter().map(|m| m.name.as_str()).collect();
    assert_eq!(names, vec!["x", "@ano@"]);
    let unit =
        hashing_variant(VariantDef::<u32> { attrs: vec![], ident: "C".to_string(), fields: vec![] })
            .unwrap();
    assert_eq!(unit.name, "C");
    assert!(unit.members.is_empty());
}

#[test]
fn variant_reads_its_own_attributes_before_its_fields() {
    let variant = VariantDef {
        attrs: name_is("name"),
        ident: "A".to_string(),
        fields: vec![field(name_is("name = 1"), Some("x"))],
    };
    assert_eq!(hashing_variant(variant).unwrap_err(), DeriveError::InvalidAttribute);
}

#[test]
fn first_bad_variant_decides_the_error() {
    let variants = vec![
        VariantDef { attrs: vec![], ident: "A".to_string(), fields: vec![] },
        VariantDef {
            attrs: vec![],
            ident: "B".to_string(),
            fields: vec![field(name_is("name = 1"), Some("x"))],
        },
        VariantDef { attrs: name_is("name"), ident: "C".to_string(), fields: vec![] },
    ];
    assert_eq!(hashing_variants(variants).unwrap_err(), DeriveError::NameNotLiteral);
}

#[test]
fn struct_resolves_its_name_and_fields() {
    let composite =
        hashing_struct(&name_is("name = \"A\""), "B".to_string(), vec![field(vec![], Some("a"))])
            .unwrap();
    match composite {
        Composite::Struct { name, fields } => {
            assert_eq!(name, "A");
            assert_eq!(fields.len(), 1);
            assert_eq!(fields[0].name, "a");
        }
        Composite::Enum { .. } => panic!("a struct was expected"),
    }
    let plain = hashing_struct(&vec![], "B".to_string(), Vec::<FieldDef<u32>>::new()).unwrap();
    assert!(matches!(
        plain,
        Composite::Struct { ref name, ref fields } if name == "B" && fields.is_empty()
    ));
}

#[test]
fn struct_reads_its_own_attributes_before_its_fields() {
    let error = hashing_struct(
        &name_is("rename = \"A\""),
        "B".to_string(),
        vec![field(name_is("name = 1"), Some("a"))],
    )
    .unwrap_err();
    assert_eq!(error, DeriveError::UnexpectedKey);
}

#[test]
fn enum_resolves_its_name_and_variants() {
    let composite = hashing_enum(
        &vec![],
        "E".to_string(),
        vec![
            VariantDef { attrs: vec![], ident: "A".to_string(), fields: vec![field(vec![], None)] },
            VariantDef { attrs: name_is("name = \"Z\""), ident: "B".to_string(), fields: vec![] },
        ],
    )
    .unwrap();
    match composite {
        Composite::Enum { name, variants } => {
            assert_eq!(name, "E");
            let names: Vec<&str> = variants.iter().map(|v| v.name.as_str()).collect();
            assert_eq!(names, vec!["A", "Z"]);
            assert_eq!(variants[0].members.len(), 1);
        }
        Composite::Struct { .. } => panic!("an enum was expected"),
    }
}

#[test]
fn union_is_refused() {
    let union = ItemDef::<u32> { attrs: vec![], ident: "U".to_string(), data: DataDef::Union };
    assert_eq!(tysh::derive::derive(union).unwrap_err(), DeriveError::UnsupportedUnion);
    let union = ItemDef::<u32> {
        attrs: name_is("name = 1"),
        ident: "U".to_string(),
        data: DataDef::Union,
    };
    assert_eq!(tysh::derive::derive(union).unwrap_err(), DeriveError::UnsupportedUnion);
}

#[test]
fn derived_struct_hashes_as_its_definition_reads() {
    // #[type_hash(name = "A")] struct B(#[type_hash(name = "first")] u8, String);
    let item = ItemDef {
        attrs: name_is("name = \"A\""),
        ident: "B".to_string(),
        data: DataDef::Struct(vec![
            FieldDef { attrs: name_is("name = \"first\""), ident: None, ty: u8::shape() },
            FieldDef { attrs: vec![], ident: None, ty: String::shape() },
        ]),
    };
    let shape = Shape::composite(tysh::derive::derive(item).unwrap());
    let mut sink = HashSink::new(DefaultHasher::new());
    shape.type_hash(&mut sink);
    let mut hasher = DefaultHasher::new();
    for name in [
        "@struct@",
        "A",
        "@field@",
        "first",
        "@primitive@",
        "u8",
        "@field@",
        "@ano@",
        "@standard@",
        "String",
    ] {
        name.hash(&mut hasher);
    }
    assert_eq!(sink.finalize(), hasher.finish());
}

#[test]
fn positional_members_are_told_apart_by_position_alone() {
    let digest = |first: Shape, second: Shape| {
        let item = ItemDef {
            attrs: vec![],
            ident: "P".to_string(),
            data: DataDef::Struct(vec![
                FieldDef { attrs: vec![], ident: None, ty: first },
                FieldDef { attrs: vec![], ident: None, ty: second },
            ]),
        };
        let shape = Shape::composite(tysh::derive::derive(item).unwrap());
        let mut sink = HashSink::new(DefaultHasher::new());
        shape.type_hash(&mut sink);
        sink.finalize()
    };
    assert_ne!(digest(u8::shape(), u16::shape()), digest(u16::shape(), u8::shape()));
}

#[test]
fn read_keeps_the_path_and_tells_whether_there_are_arguments() {
    let bare = Attribute::read("type_hash", None);
    assert_eq!(bare.path, "type_hash");
    assert!(bare.args.is_none());
    let other = Attribute::read("serde", Some("rename = \"x\""));
    assert_eq!(other.path, "serde");
    assert!(matches!(other.args, Some(Arguments::Other)));
}

#[test]
fn read_hands_the_arguments_of_the_override_to_the_parser() {
    let read = |text: &str| Attribute::read("type_hash", Some(text)).args.unwrap();
    assert!(matches!(
        read("name = \"A\""),
        Arguments::NameValue { keyed: true, value: Some(ref name) } if name == "A"
    ));
    assert!(matches!(read("name = 1"), Arguments::NameValue { keyed: true, value: None }));
    assert!(matches!(
        read("rename = \"A\""),
        Arguments::NameValue { keyed: false, value: Some(ref name) } if name == "A"
    ));
    assert!(matches!(read("name"), Arguments::Other));
    assert!(matches!(read("name(\"A\")"), Arguments::Other));
    assert!(matches!(read("name = \"A"), Arguments::Other));
    assert!(matches!(read(""), Arguments::Other));
}

#[test]
fn parse_attrs_takes_the_name_that_the_one_override_holds() {
    let attrs = vec![attribute("doc", Some("x")), holding(Some(given("n")))];
    assert_eq!(parse_attrs(&attrs), Ok(Some("n".to_string())));
    let attrs = vec![holding(Some(Arguments::NameValue { keyed: true, value: None }))];
    assert_eq!(parse_attrs(&attrs), Err(DeriveError::NameNotLiteral));
    let attrs = vec![holding(Some(Arguments::NameValue { keyed: false, value: None }))];
    assert_eq!(parse_attrs(&attrs), Err(DeriveError::UnexpectedKey));
    let attrs = vec![holding(Some(Arguments::Other))];
    assert_eq!(parse_attrs(&attrs), Err(DeriveError::InvalidAttribute));
    let attrs = vec![holding(None)];
    assert_eq!(parse_attrs(&attrs), Err(DeriveError::InvalidAttribute));
    let attrs = vec![holding(Some(given("a"))), holding(Some(given("a")))];
    assert_eq!(parse_attrs(&attrs), Err(DeriveError::RepeatedAttribute));
}

#[test]
fn override_of_an_item_leaves_no_trace_of_its_identifier() {
    let plain = hashing_struct(&vec![], "A".to_string(), vec![field(vec![], Some("a"))]).unwrap();
    let named = hashing_struct(
        &vec![holding(Some(given("A")))],
        "B".to_string(),
        vec![field(vec![holding(Some(given("a")))], Some("hoge"))],
    )
    .unwrap();
    match (plain, named) {
        (
            Composite::Struct { name: one, fields: first },
            Composite::Struct { name: other, fields: second },
        ) => {
            assert_eq!(one, other);
            assert_eq!(first.len(), second.len());
            assert_eq!(first[0].name, second[0].name);
        }
        _ => panic!("two structs were expected"),
    }
}
