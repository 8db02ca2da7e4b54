//! The fixed shapes: scalars and the containers of the standard library.
use vstd::prelude::*;
use crate::model::ShapeModel;
use crate::shape::{shapes_model, Shape};

verus! {

/// The name of the string shape.
pub const STRING: &'static str = "String";

/// The name of the optional-value shape.
pub const OPTION: &'static str = "Option";

/// The name of the fallible-result shape.
pub const RESULT: &'static str = "Result";

/// The name of the fixed-size array shape.
pub const ARRAY: &'static str = "Array";

/// The name of the growable-sequence shape.
pub const VEC: &'static str = "Vec";

/// The name of the set shape, whatever the set is built on.
pub const SET: &'static str = "Set";

/// The name of the map shape, whatever the map is built on.
pub const MAP: &'static str = "Map";

/// The name of the tuple shape.
pub const TUPLE: &'static str = "Tuple";

/// The largest number of elements that a tuple shape holds.
pub const MAX_TUPLE_ARITY: usize = 15;

/// The scalar kinds.
#[derive(Clone, Copy, Debug, PartialEq, Eq, Structural)]
pub enum Primitive {
    U8,
    U16,
    U32,
    U64,
    U128,
    I8,
    I16,
    I32,
    I64,
    I128,
    F32,
    F64,
    Bool,
    Char,
    NonZeroU8,
    NonZeroU16,
    NonZeroU32,
    NonZeroU64,
    NonZeroU128,
    NonZeroI8,
    NonZeroI16,
    NonZeroI32,
    NonZeroI64,
    NonZeroI128,
}

impl Primitive {
    /// The literal name of the kind.
    pub open spec fn spec_name(self) -> Seq<char> {
        match self {
            Primitive::U8 => "u8"@,
            Primitive::U16 => "u16"@,
            Primitive::U32 => "u32"@,
            Primitive::U64 => "u64"@,
            Primitive::U128 => "u128"@,
            Primitive::I8 => "i8"@,
            Primitive::I16 => "i16"@,
            Primitive::I32 => "i32"@,
            Primitive::I64 => "i64"@,
            Primitive::I128 => "i128"@,
            Primitive::F32 => "f32"@,
            Primitive::F64 => "f64"@,
            Primitive::Bool => "bool"@,
            Primitive::Char => "char"@,
            Primitive::NonZeroU8 => "NonZeroU8"@,
            Primitive::NonZeroU16 => "NonZeroU16"@,
            Primitive::NonZeroU32 => "NonZeroU32"@,
            Primitive::NonZeroU64 => "NonZeroU64"@,
            Primitive::NonZeroU128 => "NonZeroU128"@,
            Primitive::NonZeroI8 => "NonZeroI8"@,
            Primitive::NonZeroI16 => "NonZeroI16"@,
            Primitive::NonZeroI32 => "NonZeroI32"@,
            Primitive::NonZeroI64 => "NonZeroI64"@,
            Primitive::NonZeroI128 => "NonZeroI128"@,
        }
    }

    /// The literal name of the kind.
    pub fn name(self) -> (name: &'static str)
        ensures
            name@ == self.spec_name(),
    {
        match self {
            Primitive::U8 => "u8",
            Primitive::U16 => "u16",
            Primitive::U32 => "u32",
            Primitive::U64 => "u64",
            Primitive::U128 => "u128",
            Primitive::I8 => "i8",
            Primitive::I16 => "i16",
            Primitive::I32 => "i32",
            Primitive::I64 => "i64",
            Primitive::I128 => "i128",
            Primitive::F32 => "f32",
            Primitive::F64 => "f64",
            Primitive::Bool => "bool",
            Primitive::Char => "char",
            Primitive::NonZeroU8 => "NonZeroU8",
            Primitive::NonZeroU16 => "NonZeroU16",
            Primitive::NonZeroU32 => "NonZeroU32",
            Primitive::NonZeroU64 => "NonZeroU64",
            Primitive::NonZeroU128 => "NonZeroU128",
            Primitive::NonZeroI8 => "NonZeroI8",
            Primitive::NonZeroI16 => "NonZeroI16",
            Primitive::NonZeroI32 => "NonZeroI32",
            Primitive::NonZeroI64 => "NonZeroI64",
            Primitive::NonZeroI128 => "NonZeroI128",
        }
    }
}

impl ShapeModel {
    /// The shape of a scalar kind.
    pub open spec fn primitive(kind: Primitive) -> ShapeModel {
        ShapeModel::Primitive { name: kind.spec_name() }
    }

    /// The shape of a standard container that holds `args` and has no
    /// integer parameter.
    pub open spec fn container(name: Seq<char>, args: Seq<ShapeModel>) -> ShapeModel {
        ShapeModel::Standard { name, lens: Seq::empty(), args }
    }

    /// The shape of a string.
    pub open spec fn string() -> ShapeModel {
        ShapeModel::container(STRING@, Seq::empty())
    }

    /// The shape of an optional value.
    pub open spec fn option(inner: ShapeModel) -> ShapeModel {
        ShapeModel::container(OPTION@, seq![inner])
    }

    /// The shape of a fallible result: the success type, then the error type.
    pub open spec fn result(ok: ShapeModel, err: ShapeModel) -> ShapeModel {
        ShapeModel::container(RESULT@, seq![ok, err])
    }

    /// The shape of a fixed-size array: its length, then its element type.
    pub open spec fn array(len: usize, elem: ShapeModel) -> ShapeModel {
        ShapeModel::Standard { name: ARRAY@, lens: seq![len], args: seq![elem] }
    }

    /// The shape of a growable sequence.
    pub open spec fn vec(elem: ShapeModel) -> ShapeModel {
        ShapeModel::container(VEC@, seq![elem])
    }

    /// The shape of a set.
    pub open spec fn set(elem: ShapeModel) -> ShapeModel {
        ShapeModel::container(SET@, seq![elem])
    }

    /// The shape of a map: the key type, then the value type.
    pub open spec fn map(key: ShapeModel, value: ShapeModel) -> ShapeModel {
        ShapeModel::container(MAP@, seq![key, value])
    }

    /// The shape of a tuple, where there is one: a tuple of one element has
    /// the shape of that element, one of two to fifteen elements holds them
    /// in order, and no other tuple has a shape.
    pub open spec fn tuple(elems: Seq<ShapeModel>) -> Option<ShapeModel> {
        if elems.len() == 1 {
            Some(elems[0])
        } else if 2 <= elems.len() <= MAX_TUPLE_ARITY {
            Some(ShapeModel::container(TUPLE@, elems))
        } else {
            None
        }
    }
}

impl Shape {
    /// The shape of a scalar kind.
    pub fn primitive(kind: Primitive) -> (shape: Shape)
        ensures
            shape@ == ShapeModel::primitive(kind),
    {
        Shape::Primitive { name: kind.name().to_owned() }
    }

    /// The shape of a standard container that holds `args` and has no
    /// integer parameter.
    pub fn container(name: &str, args: Vec<Shape>) -> (shape: Shape)
        ensures
            shape@ == ShapeModel::container(name@, shapes_model(args@)),
    {
        Shape::Standard { name: name.to_owned(), lens: Vec::new(), args }
    }

    /// The shape of a string.
    pub fn string() -> (shape: Shape)
        ensures
            shape@ == ShapeModel::string(),
    {
        let shape = Shape::container(STRING, Vec::new());
        assert(shapes_model(Seq::empty()) =~= Seq::empty());
        shape
    }

    /// The shape of an optional value.
    pub fn option(inner: Shape) -> (shape: Shape)
        ensures
            shape@ == ShapeModel::option(inner@),
    {
        let args = vec![inner];
        assert(shapes_model(args@) =~= seq![inner@]);
        Shape::container(OPTION, args)
    }

    /// The shape of a fallible result: the success type, then the error type.
    pub fn result(ok: Shape, err: Shape) -> (shape: Shape)
        ensures
            shape@ == ShapeModel::result(ok@, err@),
    {
        let args = vec![ok, err];
        assert(shapes_model(args@) =~= seq![ok@, err@]);
        Shape::container(RESULT, args)
    }

    /// The shape of a fixed-size array: its length, then its element type.
    pub fn array(len: usize, elem: Shape) -> (shape: Shape)
        ensures
            shape@ == ShapeModel::array(len, elem@),
    {
        let args = vec![elem];
        let lens = vec![len];
        assert(shapes_model(args@) =~= seq![elem@]);
        assert(lens@ =~= seq![len]);
        Shape::Standard { name: ARRAY.to_owned(), lens, args }
    }

    /// The shape of a growable sequence.
    pub fn vec(elem: Shape) -> (shape: Shape)
        ensures
            shape@ == ShapeModel::vec(elem@),
    {
        let args = vec![elem];
        assert(shapes_model(args@) =~= seq![elem@]);
        Shape::container(VEC, args)
    }

    /// The shape of a set.
    pub fn set(elem: Shape) -> (shape: Shape)
        ensures
            shape@ == ShapeModel::set(elem@),
    {
        let args = vec![elem];
        assert(shapes_model(args@) =~= seq![elem@]);
        Shape::container(SET, args)
    }

    /// The shape of a map: the key type, then the value type.
    pub fn map(key: Shape, value: Shape) -> (shape: Shape)
        ensures
            shape@ == ShapeModel::map(key@, value@),
    {
        let args = vec![key, value];
        assert(shapes_model(args@) =~= seq![key@, value@]);
        Shape::container(MAP, args)
    }

    /// The shape of a tuple of these elements, where there is one.
    pub fn tuple(elems: Vec<Shape>) -> (shape: Option<Shape>)
        ensures
            match ShapeModel::tuple(shapes_model(elems@)) {
                Some(model) => shape is Some && shape.unwrap()@ == model,
                None => shape is None,
            },
    {
        let mut elems = elems;
        if elems.len() == 1 {
            elems.pop()
        } else if 2 <= elems.len() && elems.len() <= MAX_TUPLE_ARITY {
            Some(Shape::container(TUPLE, elems))
        } else {
            None
        }
    }
}

} // verus!
