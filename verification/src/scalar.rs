//! The shapes of the scalar types.
//!
//! The floating-point types and the non-zero integers have no impl here:
//! their shapes are built by kind, with [`Shape::primitive`].
use vstd::prelude::*;
use crate::model::ShapeModel;
use crate::registry::Primitive;
use crate::shape::Shape;
use crate::TypeHash;

verus! {

impl TypeHash for u8 {
    open spec fn model() -> ShapeModel {
        ShapeModel::primitive(Primitive::U8)
    }

    fn shape() -> Shape {
        Shape::primitive(Primitive::U8)
    }
}

impl TypeHash for u16 {
    open spec fn model() -> ShapeModel {
        ShapeModel::primitive(Primitive::U16)
    }

    fn shape() -> Shape {
        Shape::primitive(Primitive::U16)
    }
}

impl TypeHash for u32 {
    open spec fn model() -> ShapeModel {
        ShapeModel::primitive(Primitive::U32)
    }

    fn shape() -> Shape {
        Shape::primitive(Primitive::U32)
    }
}

impl TypeHash for u64 {
    open spec fn model() -> ShapeModel {
        ShapeModel::primitive(Primitive::U64)
    }

    fn shape() -> Shape {
        Shape::primitive(Primitive::U64)
    }
}

impl TypeHash for u128 {
    open spec fn model() -> ShapeModel {
        ShapeModel::primitive(Primitive::U128)
    }

    fn shape() -> Shape {
        Shape::primitive(Primitive::U128)
    }
}

impl TypeHash for i8 {
    open spec fn model() -> ShapeModel {
        ShapeModel::primitive(Primitive::I8)
    }

    fn shape() -> Shape {
        Shape::primitive(Primitive::I8)
    }
}

impl TypeHash for i16 {
    open spec fn model() -> ShapeModel {
        ShapeModel::primitive(Primitive::I16)
    }

    fn shape() -> Shape {
        Shape::primitive(Primitive::I16)
    }
}

impl TypeHash for i32 {
    open spec fn model() -> ShapeModel {
        ShapeModel::primitive(Primitive::I32)
    }

    fn shape() -> Shape {
        Shape::primitive(Primitive::I32)
    }
}

impl TypeHash for i64 {
    open spec fn model() -> ShapeModel {
        ShapeModel::primitive(Primitive::I64)
    }

    fn shape() -> Shape {
        Shape::primitive(Primitive::I64)
    }
}

impl TypeHash for i128 {
    open spec fn model() -> ShapeModel {
        ShapeModel::primitive(Primitive::I128)
    }

    fn shape() -> Shape {
        Shape::primitive(Primitive::I128)
    }
}

impl TypeHash for bool {
    open spec fn model() -> ShapeModel {
        ShapeModel::primitive(Primitive::Bool)
    }

    fn shape() -> Shape {
        Shape::primitive(Primitive::Bool)
    }
}

impl TypeHash for char {
    open spec fn model() -> ShapeModel {
        ShapeModel::primitive(Primitive::Char)
    }

    fn shape() -> Shape {
        Shape::primitive(Primitive::Char)
    }
}

} // verus!
