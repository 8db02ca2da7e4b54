use tysh::registry::{
    Primitive, ARRAY, MAP, MAX_TUPLE_ARITY, OPTION, RESULT, SET, STRING, TUPLE, VEC,
};
use tysh::token::{ANONYMOUS, ENUM, FIELD, PRIMITIVE, STANDARD, STRUCT};

#[test]
fn primitive_names_are_the_type_names() {
    let names: Vec<&str> = [
        Primitive::U8,
        Primitive::U16,
        Primitive::U32,
        Primitive::U64,
        Primitive::U128,
        Primitive::I8,
        Primitive::I16,
        Primitive::I32,
        Primitive::I64,
        Primitive::I128,
        Primitive::F32,
        Primitive::F64,
        Primitive::Bool,
        Primitive::Char,
        Primitive::NonZeroU8,
        Primitive::NonZeroU16,
        Primitive::NonZeroU32,
        Primitive::NonZeroU64,
        Primitive::NonZeroU128,
        Primitive::NonZeroI8,
        Primitive::NonZeroI16,
        Primitive::NonZeroI32,
        Primitive::NonZeroI64,
        Primitive::NonZeroI128,
    ]
    .iter()
    .map(|kind| kind.name())
    .collect();
    assert_eq!(
        names,
        vec![
            "u8",
            "u16",
            "u32",
            "u64",
            "u128",
            "i8",
            "i16",
            "i32",
            "i64",
            "i128",
            "f32",
            "f64",
            "bool",
            "char",
            "NonZeroU8",
            "NonZeroU16",
            "NonZeroU32",
            "NonZeroU64",
            "NonZeroU128",
            "NonZeroI8",
            "NonZeroI16",
            "NonZeroI32",
            "NonZeroI64",
            "NonZeroI128",
        ]
    );
}

#[test]
fn primitive_names_are_distinct() {
    let kinds = [
        Primitive::U8,
        Primitive::U16,
        Primitive::I8,
        Primitive::I16,
        Primitive::NonZeroU8,
        Primitive::NonZeroI8,
        Primitive::F32,
        Primitive::F64,
        Primitive::Bool,
        Primitive::Char,
    ];
    for (i, a) in kinds.iter().enumerate() {
        for (j, b) in kinds.iter().enumerate() {
            assert_eq!(i == j, a.name() == b.name());
        }
    }
}

#[test]
fn tags_and_container_names_are_as_published() {
    assert_eq!(PRIMITIVE, "@primitive@");
    assert_eq!(STANDARD, "@standard@");
    assert_eq!(STRUCT, "@struct@");
    assert_eq!(ENUM, "@enum@");
    assert_eq!(FIELD, "@field@");
    assert_eq!(ANONYMOUS, "@ano@");
    assert_eq!(
        [STRING, OPTION, RESULT, ARRAY, VEC, SET, MAP, TUPLE],
        ["String", "Option", "Result", "Array", "Vec", "Set", "Map", "Tuple"]
    );
    assert_eq!(MAX_TUPLE_ARITY, 15);
}
