use std::cell::{Cell, RefCell};
use std::collections::hash_map::DefaultHasher;
use std::collections::{BTreeMap, BTreeSet, HashMap, HashSet};
use std::hash::{Hash, Hasher};
use std::mem::MaybeUninit;
use std::num::Wrapping;
use std::rc::Rc;
use std::sync::atomic::{AtomicBool, AtomicI64, AtomicU32, AtomicU8};
use std::sync::{Arc, Mutex, RwLock};

use tysh::registry::Primitive;
use tysh::shape::{Composite, Member, Variant};
use tysh::{HashSink, Shape, TypeHash};

fn digest(shape: &Shape) -> u64 {
    let mut sink = HashSink::new(DefaultHasher::new());
    shape.type_hash(&mut sink);
    sink.finalize()
}

fn by_hand(names: &[&str]) -> u64 {
    let mut hasher = DefaultHasher::new();
    for name in names {
        name.hash(&mut hasher);
    }
    hasher.finish()
}

#[test]
fn sink_writes_each_name_as_one_token() {
    let mut split = HashSink::new(DefaultHasher::new());
    split.write_name("ab");
    split.write_name("c");
    let mut other = HashSink::new(DefaultHasher::new());
    other.write_name("a");
    other.write_name("bc");
    assert_ne!(split.finalize(), other.finalize());
}

#[test]
fn sink_feeds_what_it_is_given() {
    let mut sink = HashSink::new(DefaultHasher::new());
    sink.write_name("@standard@");
    sink.write_count(7);
    sink.write_header("x", "y");
    let mut hasher = DefaultHasher::new();
    "@standard@".hash(&mut hasher);
    7usize.hash(&mut hasher);
    "x".hash(&mut hasher);
    "y".hash(&mut hasher);
    assert_eq!(sink.finalize(), hasher.finish());
}

#[test]
fn sink_without_writes_finishes_as_the_algorithm_does() {
    let sink = HashSink::new(DefaultHasher::new());
    assert_eq!(sink.finalize(), DefaultHasher::new().finish());
}

#[test]
fn hashing_twice_gives_one_digest() {
    let shape = Shape::map(Shape::string(), Shape::vec(Shape::primitive(Primitive::I64)));
    assert_eq!(digest(&shape), digest(&shape));
    assert_eq!(
        HashMap::<String, Vec<i64>>::type_hash_one::<DefaultHasher>(),
        HashMap::<String, Vec<i64>>::type_hash_one::<DefaultHasher>()
    );
    assert_eq!(digest(&shape), HashMap::<String, Vec<i64>>::type_hash_one::<DefaultHasher>());
}

#[test]
fn primitive_writes_tag_and_name() {
    assert_eq!(u8::type_hash_one::<DefaultHasher>(), by_hand(&["@primitive@", "u8"]));
    assert_eq!(i128::type_hash_one::<DefaultHasher>(), by_hand(&["@primitive@", "i128"]));
    assert_eq!(bool::type_hash_one::<DefaultHasher>(), by_hand(&["@primitive@", "bool"]));
    assert_eq!(char::type_hash_one::<DefaultHasher>(), by_hand(&["@primitive@", "char"]));
    assert_eq!(
        digest(&Shape::primitive(Primitive::NonZeroU16)),
        by_hand(&["@primitive@", "NonZeroU16"])
    );
    assert_eq!(digest(&Shape::primitive(Primitive::F64)), by_hand(&["@primitive@", "f64"]));
}

#[test]
fn widths_and_signs_do_not_collide() {
    assert_ne!(u8::type_hash_one::<DefaultHasher>(), u16::type_hash_one::<DefaultHasher>());
    assert_ne!(u32::type_hash_one::<DefaultHasher>(), i32::type_hash_one::<DefaultHasher>());
    assert_ne!(u64::type_hash_one::<DefaultHasher>(), u128::type_hash_one::<DefaultHasher>());
}

#[test]
fn containers_write_their_name_then_what_they_hold() {
    assert_eq!(String::type_hash_one::<DefaultHasher>(), by_hand(&["@standard@", "String"]));
    assert_eq!(
        Option::<u8>::type_hash_one::<DefaultHasher>(),
        by_hand(&["@standard@", "Option", "@primitive@", "u8"])
    );
    assert_eq!(
        Result::<u8, String>::type_hash_one::<DefaultHasher>(),
        by_hand(&["@standard@", "Result", "@primitive@", "u8", "@standard@", "String"])
    );
    assert_eq!(
        Vec::<Vec<u32>>::type_hash_one::<DefaultHasher>(),
        by_hand(&["@standard@", "Vec", "@standard@", "Vec", "@primitive@", "u32"])
    );
    assert_eq!(
        HashSet::<i32>::type_hash_one::<DefaultHasher>(),
        by_hand(&["@standard@", "Set", "@primitive@", "i32"])
    );
    assert_eq!(
        HashMap::<String, i32>::type_hash_one::<DefaultHasher>(),
        by_hand(&["@standard@", "Map", "@standard@", "String", "@primitive@", "i32"])
    );
}

#[test]
fn array_writes_its_length_before_its_element() {
    let mut hasher = DefaultHasher::new();
    "@standard@".hash(&mut hasher);
    "Array".hash(&mut hasher);
    10usize.hash(&mut hasher);
    "@standard@".hash(&mut hasher);
    "String".hash(&mut hasher);
    assert_eq!(<[String; 10]>::type_hash_one::<DefaultHasher>(), hasher.finish());
    assert_ne!(
        <[u8; 4]>::type_hash_one::<DefaultHasher>(),
        <[u8; 5]>::type_hash_one::<DefaultHasher>()
    );
    assert_eq!(
        digest(&Shape::array(4, u8::shape())),
        <[u8; 4]>::type_hash_one::<DefaultHasher>()
    );
}

#[test]
fn vec_and_array_do_not_match() {
    assert_ne!(
        Vec::<u8>::type_hash_one::<DefaultHasher>(),
        <[u8; 4]>::type_hash_one::<DefaultHasher>()
    );
}

#[test]
fn tuples_write_their_elements_in_order() {
    assert_eq!(
        <(u8, String)>::type_hash_one::<DefaultHasher>(),
        by_hand(&["@standard@", "Tuple", "@primitive@", "u8", "@standard@", "String"])
    );
    assert_ne!(
        <(u8, String)>::type_hash_one::<DefaultHasher>(),
        <(String, u8)>::type_hash_one::<DefaultHasher>()
    );
    assert_eq!(
        <(u8, u8, u8, u8, u8, u8, u8, u8, u8, u8, u8, u8, u8, u8, u16)>::type_hash_one::<
            DefaultHasher,
        >(),
        by_hand(&[
            "@standard@",
            "Tuple",
            "@primitive@",
            "u8",
            "@primitive@",
            "u8",
            "@primitive@",
            "u8",
            "@primitive@",
            "u8",
            "@primitive@",
            "u8",
            "@primitive@",
            "u8",
            "@primitive@",
            "u8",
            "@primitive@",
            "u8",
            "@primitive@",
            "u8",
            "@primitive@",
            "u8",
            "@primitive@",
            "u8",
            "@primitive@",
            "u8",
            "@primitive@",
            "u8",
            "@primitive@",
            "u8",
            "@primitive@",
            "u16",
        ])
    );
}

#[test]
fn tuple_of_one_is_its_element() {
    assert_eq!(<(u32,)>::type_hash_one::<DefaultHasher>(), u32::type_hash_one::<DefaultHasher>());
    let one = Shape::tuple(vec![u32::shape()]).unwrap();
    assert_eq!(digest(&one), u32::type_hash_one::<DefaultHasher>());
}

#[test]
fn tuple_shape_has_two_to_fifteen_elements() {
    assert!(Shape::tuple(vec![]).is_none());
    let two = Shape::tuple(vec![u8::shape(), String::shape()]).unwrap();
    assert_eq!(digest(&two), <(u8, String)>::type_hash_one::<DefaultHasher>());
    let mut elems = Vec::new();
    for _ in 0..15 {
        elems.push(u8::shape());
    }
    assert!(Shape::tuple(elems).is_some());
    let mut elems = Vec::new();
    for _ in 0..16 {
        elems.push(u8::shape());
    }
    assert!(Shape::tuple(elems).is_none());
}

#[test]
fn ordered_collections_hash_as_hashed_ones() {
    assert_eq!(
        BTreeSet::<i32>::type_hash_one::<DefaultHasher>(),
        by_hand(&["@standard@", "Set", "@primitive@", "i32"])
    );
    assert_eq!(
        BTreeMap::<u8, u16>::type_hash_one::<DefaultHasher>(),
        HashMap::<u8, u16>::type_hash_one::<DefaultHasher>()
    );
}

#[test]
fn wrappers_hash_as_what_they_hold() {
    let plain = i32::type_hash_one::<DefaultHasher>();
    assert_eq!(Rc::<i32>::type_hash_one::<DefaultHasher>(), plain);
    assert_eq!(Arc::<i32>::type_hash_one::<DefaultHasher>(), plain);
    assert_eq!(Box::<i32>::type_hash_one::<DefaultHasher>(), plain);
    assert_eq!(Cell::<i32>::type_hash_one::<DefaultHasher>(), plain);
    assert_eq!(RefCell::<i32>::type_hash_one::<DefaultHasher>(), plain);
    assert_eq!(Mutex::<i32>::type_hash_one::<DefaultHasher>(), plain);
    assert_eq!(RwLock::<i32>::type_hash_one::<DefaultHasher>(), plain);
    assert_eq!(MaybeUninit::<i32>::type_hash_one::<DefaultHasher>(), plain);
    assert_eq!(Wrapping::<i32>::type_hash_one::<DefaultHasher>(), plain);
    assert_eq!(Rc::<RefCell<Box<i32>>>::type_hash_one::<DefaultHasher>(), plain);
}

#[test]
fn atomics_hash_as_plain_integers() {
    assert_eq!(AtomicU32::type_hash_one::<DefaultHasher>(), u32::type_hash_one::<DefaultHasher>());
    assert_eq!(AtomicU8::type_hash_one::<DefaultHasher>(), u8::type_hash_one::<DefaultHasher>());
    assert_eq!(AtomicI64::type_hash_one::<DefaultHasher>(), i64::type_hash_one::<DefaultHasher>());
    assert_eq!(
        AtomicBool::type_hash_one::<DefaultHasher>(),
        bool::type_hash_one::<DefaultHasher>()
    );
}

#[test]
fn inline_sequence_hashes_as_a_growable_one() {
    // A sequence with inline capacity stands for a growable sequence of its
    // element type: its shape is that of `Vec`.
    let inline = Shape::vec(u8::shape());
    assert_eq!(digest(&inline), Vec::<u8>::type_hash_one::<DefaultHasher>());
}

#[test]
fn struct_writes_each_field_behind_the_field_tag() {
    let shape = Shape::composite(Composite::Struct {
        name: "A".to_string(),
        fields: vec![
            Member { name: "a".to_string(), ty: u8::shape() },
            Member { name: "b".to_string(), ty: u16::shape() },
        ],
    });
    assert_eq!(
        digest(&shape),
        by_hand(&[
            "@struct@",
            "A",
            "@field@",
            "a",
            "@primitive@",
            "u8",
            "@field@",
            "b",
            "@primitive@",
            "u16",
        ])
    );
}

#[test]
fn enum_writes_each_variant_name_then_its_members() {
    let shape = Shape::composite(Composite::Enum {
        name: "E".to_string(),
        variants: vec![
            Variant {
                name: "A".to_string(),
                members: vec![Member { name: "@ano@".to_string(), ty: u8::shape() }],
            },
            Variant { name: "C".to_string(), members: vec![] },
        ],
    });
    assert_eq!(
        digest(&shape),
        by_hand(&["@enum@", "E", "A", "@field@", "@ano@", "@primitive@", "u8", "C"])
    );
}

#[test]
fn shapes_that_share_a_name_do_not_collide_across_namespaces() {
    let primitive = Shape::Primitive { name: "A".to_string() };
    let standard = Shape::container("A", vec![]);
    let structure = Shape::composite(Composite::Struct { name: "A".to_string(), fields: vec![] });
    let enumeration = Shape::composite(Composite::Enum { name: "A".to_string(), variants: vec![] });
    let digests = [digest(&primitive), digest(&standard), digest(&structure), digest(&enumeration)];
    for i in 0..4 {
        for j in 0..4 {
            if i != j {
                assert_ne!(digests[i], digests[j]);
            }
        }
    }
    assert_eq!(digests[0], by_hand(&["@primitive@", "A"]));
    assert_eq!(digests[1], by_hand(&["@standard@", "A"]));
    assert_eq!(digests[2], by_hand(&["@struct@", "A"]));
    assert_eq!(digests[3], by_hand(&["@enum@", "A"]));
}

#[test]
fn nested_composite_is_written_in_place() {
    let inner = Shape::composite(Composite::Struct {
        name: "Inner".to_string(),
        fields: vec![Member { name: "x".to_string(), ty: u8::shape() }],
    });
    let outer = Shape::composite(Composite::Struct {
        name: "Outer".to_string(),
        fields: vec![Member { name: "inner".to_string(), ty: Shape::option(inner) }],
    });
    assert_eq!(
        digest(&outer),
        by_hand(&[
            "@struct@",
            "Outer",
            "@field@",
            "inner",
            "@standard@",
            "Option",
            "@struct@",
            "Inner",
            "@field@",
            "x",
            "@primitive@",
            "u8",
        ])
    );
}

#[test]
fn exchange_goes_unseen_where_the_encodings_read_the_same_in_either_order() {
    // An enum without variants, and an enum of the same name whose two unit
    // variants are named like the first one's tag and name: the second
    // encodes to the first's encoding twice over.
    let once = || Shape::composite(Composite::Enum { name: "S".to_string(), variants: vec![] });
    let twice = || {
        Shape::composite(Composite::Enum {
            name: "S".to_string(),
            variants: vec![
                Variant { name: "@enum@".to_string(), members: vec![] },
                Variant { name: "S".to_string(), members: vec![] },
            ],
        })
    };
    assert_eq!(digest(&twice()), by_hand(&["@enum@", "S", "@enum@", "S"]));
    let pair = Shape::tuple(vec![once(), twice()]).unwrap();
    let exchanged = Shape::tuple(vec![twice(), once()]).unwrap();
    assert_eq!(digest(&pair), digest(&exchanged));
}

#[test]
fn algorithm_consumes_blocks_as_the_default_hasher_does() {
    let mut ours = <DefaultHasher as tysh::Algorithm>::fresh();
    tysh::Algorithm::write(&mut ours, b"ab");
    tysh::Algorithm::write(&mut ours, &[0xff]);
    let mut theirs = DefaultHasher::new();
    Hasher::write(&mut theirs, b"ab");
    Hasher::write(&mut theirs, &[0xff]);
    assert_eq!(tysh::Algorithm::finish(&ours), Hasher::finish(&theirs));
    assert_ne!(
        tysh::Algorithm::finish(&ours),
        tysh::Algorithm::finish(&<DefaultHasher as tysh::Algorithm>::fresh())
    );
}

#[test]
fn name_is_written_as_its_bytes_and_a_closing_byte() {
    let mut sink = HashSink::new(DefaultHasher::new());
    sink.write_name("h\u{e9}");
    let mut hasher = DefaultHasher::new();
    Hasher::write(&mut hasher, &[b'h', 0xc3, 0xa9]);
    Hasher::write(&mut hasher, &[0xff]);
    assert_eq!(sink.finalize(), Hasher::finish(&hasher));
}

#[test]
fn count_is_written_as_eight_bytes_least_significant_first() {
    let mut sink = HashSink::new(DefaultHasher::new());
    sink.write_count(0x0102);
    let mut hasher = DefaultHasher::new();
    Hasher::write(&mut hasher, &[2, 1, 0, 0, 0, 0, 0, 0]);
    assert_eq!(sink.finalize(), Hasher::finish(&hasher));
}

#[test]
fn sink_goes_on_from_what_the_algorithm_has_consumed() {
    let mut hasher = DefaultHasher::new();
    Hasher::write(&mut hasher, b"before");
    let mut sink = HashSink::new(hasher);
    sink.write_name("a");
    let mut whole = DefaultHasher::new();
    Hasher::write(&mut whole, b"before");
    "a".hash(&mut whole);
    assert_eq!(sink.finalize(), Hasher::finish(&whole));
}
