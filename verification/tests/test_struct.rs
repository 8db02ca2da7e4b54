use std::collections::hash_map::DefaultHasher;

use tysh::derive::{Attribute, DataDef, FieldDef, ItemDef};
use tysh::registry::Primitive;
use tysh::{HashSink, Shape, TypeHash};

fn named(name: &str) -> Vec<Attribute> {
    vec![Attribute::read("type_hash", Some(&format!("name = {:?}", name)))]
}

fn field(attrs: Vec<Attribute>, ident: &str, ty: Shape) -> FieldDef<Shape> {
    FieldDef { attrs, ident: Some(ident.to_string()), ty }
}

fn structure(attrs: Vec<Attribute>, ident: &str, fields: Vec<FieldDef<Shape>>) -> ItemDef<Shape> {
    ItemDef { attrs, ident: ident.to_string(), data: DataDef::Struct(fields) }
}

fn float() -> Shape {
    Shape::primitive(Primitive::F32)
}

fn type_hash_one(item: ItemDef<Shape>) -> u64 {
    let shape = Shape::composite(tysh::derive::derive(item).unwrap());
    let mut sink = HashSink::new(DefaultHasher::new());
    shape.type_hash(&mut sink);
    sink.finalize()
}

// struct A { a: u8, b: String, c: f32 }
fn baseline_a() -> ItemDef<Shape> {
    structure(
        vec![],
        "A",
        vec![
            field(vec![], "a", u8::shape()),
            field(vec![], "b", String::shape()),
            field(vec![], "c", float()),
        ],
    )
}

#[test]
fn test_general_type_is_hashable() {
    // struct A { a: u16, b: f32, c: bool, d: String, e: Vec<Vec<u32>>,
    //            f: Option<String>, g: Result<u8, String>, h: [String; 10] }
    let a = structure(
        vec![],
        "A",
        vec![
            field(vec![], "a", u16::shape()),
            field(vec![], "b", float()),
            field(vec![], "c", bool::shape()),
            field(vec![], "d", String::shape()),
            field(vec![], "e", Vec::<Vec<u32>>::shape()),
            field(vec![], "f", Option::<String>::shape()),
            field(vec![], "g", Result::<u8, String>::shape()),
            field(vec![], "h", <[String; 10]>::shape()),
        ],
    );

    type_hash_one(a);
}

#[test]
fn test_struct_test_type_hash_matches() {
    let a = structure(
        vec![],
        "A",
        vec![
            field(vec![], "a", u8::shape()),
            field(vec![], "b", String::shape()),
            field(vec![], "c", float()),
        ],
    );

    assert_eq!(type_hash_one(baseline_a()), type_hash_one(a));
}

#[test]
fn test_type_hash_not_match_if_different_struct_name() {
    let b = structure(
        vec![],
        "B",
        vec![
            field(vec![], "a", u8::shape()),
            field(vec![], "b", String::shape()),
            field(vec![], "c", float()),
        ],
    );

    assert_ne!(type_hash_one(baseline_a()), type_hash_one(b));
}

#[test]
fn test_struct_test_type_hash_not_match_if_different_field_name() {
    let a = structure(
        vec![],
        "A",
        vec![
            field(vec![], "changed", u8::shape()),
            field(vec![], "b", String::shape()),
            field(vec![], "c", float()),
        ],
    );

    assert_ne!(type_hash_one(baseline_a()), type_hash_one(a));
}

#[test]
fn test_struct_test_type_hash_matches_inner_type_name() {
    let b = structure(
        named("A"),
        "B",
        vec![
            field(vec![], "a", u8::shape()),
            field(vec![], "b", String::shape()),
            field(vec![], "c", float()),
        ],
    );

    assert_eq!(type_hash_one(baseline_a()), type_hash_one(b));
}

#[test]
fn test_struct_test_type_hash_matches_inner_field_name() {
    let a = structure(
        vec![],
        "A",
        vec![
            field(named("a"), "changed", u8::shape()),
            field(vec![], "b", String::shape()),
            field(vec![], "c", float()),
        ],
    );

    assert_eq!(type_hash_one(baseline_a()), type_hash_one(a));
}

#[test]
fn test_struct_with_every_name_overridden_matches() {
    // struct A { a: u8, b: u16 } against struct B under the name "A", with
    // its fields hoge and fuga under the names "a" and "b".
    let a = structure(
        vec![],
        "A",
        vec![field(vec![], "a", u8::shape()), field(vec![], "b", u16::shape())],
    );
    let b = structure(
        named("A"),
        "B",
        vec![field(named("a"), "hoge", u8::shape()), field(named("b"), "fuga", u16::shape())],
    );

    assert_eq!(type_hash_one(a), type_hash_one(b));
}

#[test]
fn test_struct_fields_reordered_do_not_match() {
    let a = structure(
        vec![],
        "A",
        vec![
            field(vec![], "b", String::shape()),
            field(vec![], "a", u8::shape()),
            field(vec![], "c", float()),
        ],
    );

    assert_ne!(type_hash_one(baseline_a()), type_hash_one(a));
}
