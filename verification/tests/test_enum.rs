use std::collections::hash_map::DefaultHasher;

use tysh::derive::{Attribute, DataDef, FieldDef, ItemDef, VariantDef};
use tysh::registry::Primitive;
use tysh::{HashSink, Shape, TypeHash};

fn named(name: &str) -> Vec<Attribute> {
    vec![Attribute::read("type_hash", Some(&format!("name = {:?}", name)))]
}

fn positional(ty: Shape) -> FieldDef<Shape> {
    FieldDef { attrs: vec![], ident: None, ty }
}

fn field(attrs: Vec<Attribute>, ident: &str, ty: Shape) -> FieldDef<Shape> {
    FieldDef { attrs, ident: Some(ident.to_string()), ty }
}

fn variant(attrs: Vec<Attribute>, ident: &str, fields: Vec<FieldDef<Shape>>) -> VariantDef<Shape> {
    VariantDef { attrs, ident: ident.to_string(), fields }
}

fn enumeration(
    attrs: Vec<Attribute>,
    ident: &str,
    variants: Vec<VariantDef<Shape>>,
) -> ItemDef<Shape> {
    ItemDef { attrs, ident: ident.to_string(), data: DataDef::Enum(variants) }
}

fn floats() -> Shape {
    Shape::vec(Shape::primitive(Primitive::F32))
}

fn type_hash_one(item: ItemDef<Shape>) -> u64 {
    let shape = Shape::composite(tysh::derive::derive(item).unwrap());
    let mut sink = HashSink::new(DefaultHasher::new());
    shape.type_hash(&mut sink);
    sink.finalize()
}

// enum Enum { A(u8, String), B { x: u16, y: Vec<f32> }, C }
fn baseline_enum() -> ItemDef<Shape> {
    enumeration(
        vec![],
        "Enum",
        vec![
            variant(vec![], "A", vec![positional(u8::shape()), positional(String::shape())]),
            variant(
                vec![],
                "B",
                vec![field(vec![], "x", u16::shape()), field(vec![], "y", floats())],
            ),
            variant(vec![], "C", vec![]),
        ],
    )
}

#[test]
fn test_enum_test_type_hash_matches() {
    let e = enumeration(
        vec![],
        "Enum",
        vec![
            variant(vec![], "A", vec![positional(u8::shape()), positional(String::shape())]),
            variant(
                vec![],
                "B",
                vec![field(vec![], "x", u16::shape()), field(vec![], "y", floats())],
            ),
            variant(vec![], "C", vec![]),
        ],
    );

    assert_eq!(type_hash_one(baseline_enum()), type_hash_one(e));
}

#[test]
fn test_type_hash_not_match_if_different_enum_name() {
    let e = enumeration(
        vec![],
        "Enum2",
        vec![
            variant(vec![], "A", vec![positional(u8::shape()), positional(String::shape())]),
            variant(
                vec![],
                "B",
                vec![field(vec![], "x", u16::shape()), field(vec![], "y", floats())],
            ),
            variant(vec![], "C", vec![]),
        ],
    );

    assert_ne!(type_hash_one(baseline_enum()), type_hash_one(e));
}

#[test]
fn test_enum_test_type_hash_not_match_if_different_field_name() {
    let e = enumeration(
        vec![],
        "Enum",
        vec![
            variant(vec![], "Changed", vec![positional(u8::shape()), positional(String::shape())]),
            variant(
                vec![],
                "B",
                vec![field(vec![], "x", u16::shape()), field(vec![], "y", floats())],
            ),
            variant(vec![], "C", vec![]),
        ],
    );

    assert_ne!(type_hash_one(baseline_enum()), type_hash_one(e));
}

#[test]
fn test_enum_test_type_hash_matches_inner_type_name() {
    let e = enumeration(
        named("Enum"),
        "Enum2",
        vec![
            variant(vec![], "A", vec![positional(u8::shape()), positional(String::shape())]),
            variant(
                vec![],
                "B",
                vec![field(vec![], "x", u16::shape()), field(vec![], "y", floats())],
            ),
            variant(vec![], "C", vec![]),
        ],
    );

    assert_eq!(type_hash_one(baseline_enum()), type_hash_one(e));
}

#[test]
fn test_type_hash_matches_inner_variant_name() {
    let e = enumeration(
        vec![],
        "Enum",
        vec![
            variant(
                named("A"),
                "Changed",
                vec![positional(u8::shape()), positional(String::shape())],
            ),
            variant(
                named("B"),
                "Changed2",
                vec![field(vec![], "x", u16::shape()), field(vec![], "y", floats())],
            ),
            variant(vec![], "C", vec![]),
        ],
    );

    assert_eq!(type_hash_one(baseline_enum()), type_hash_one(e));
}

#[test]
fn test_enum_test_type_hash_matches_inner_field_name() {
    let e = enumeration(
        vec![],
        "Enum",
        vec![
            variant(vec![], "A", vec![positional(u8::shape()), positional(String::shape())]),
            variant(
                vec![],
                "B",
                vec![field(named("x"), "u", u16::shape()), field(named("y"), "v", floats())],
            ),
            variant(vec![], "C", vec![]),
        ],
    );

    assert_eq!(type_hash_one(baseline_enum()), type_hash_one(e));
}

#[test]
fn test_enum_variants_reordered_do_not_match() {
    // enum Color { Red, Green, Blue } against { Blue, Green, Red }
    let color = enumeration(
        vec![],
        "Color",
        vec![
            variant(vec![], "Red", vec![]),
            variant(vec![], "Green", vec![]),
            variant(vec![], "Blue", vec![]),
        ],
    );
    let reordered = enumeration(
        vec![],
        "Color",
        vec![
            variant(vec![], "Blue", vec![]),
            variant(vec![], "Green", vec![]),
            variant(vec![], "Red", vec![]),
        ],
    );

    assert_ne!(type_hash_one(color), type_hash_one(reordered));
}
