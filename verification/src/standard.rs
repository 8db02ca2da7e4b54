//! The shapes of the standard containers.
use std::collections::{HashMap, HashSet};
use vstd::prelude::*;
use crate::model::ShapeModel;
use crate::shape::Shape;
use crate::TypeHash;

verus! {

impl TypeHash for String {
    open spec fn model() -> ShapeModel {
        ShapeModel::string()
    }

    fn shape() -> Shape {
        Shape::string()
    }
}

impl<T: TypeHash> TypeHash for Option<T> {
    open spec fn model() -> ShapeModel {
        ShapeModel::option(T::model())
    }

    fn shape() -> Shape {
        Shape::option(T::shape())
    }
}

impl<T: TypeHash, E: TypeHash> TypeHash for Result<T, E> {
    open spec fn model() -> ShapeModel {
        ShapeModel::result(T::model(), E::model())
    }

    fn shape() -> Shape {
        Shape::result(T::shape(), E::shape())
    }
}

impl<const N: usize, T: TypeHash> TypeHash for [T; N] {
    open spec fn model() -> ShapeModel {
        ShapeModel::array(N, T::model())
    }

    fn shape() -> Shape {
        Shape::array(N, T::shape())
    }
}

impl<T: TypeHash> TypeHash for Vec<T> {
    open spec fn model() -> ShapeModel {
        ShapeModel::vec(T::model())
    }

    fn shape() -> Shape {
        Shape::vec(T::shape())
    }
}

impl<T: TypeHash> TypeHash for HashSet<T> {
    open spec fn model() -> ShapeModel {
        ShapeModel::set(T::model())
    }

    fn shape() -> Shape {
        Shape::set(T::shape())
    }
}

impl<T: TypeHash, U: TypeHash> TypeHash for HashMap<T, U> {
    open spec fn model() -> ShapeModel {
        ShapeModel::map(T::model(), U::model())
    }

    fn shape() -> Shape {
        Shape::map(T::shape(), U::shape())
    }
}

} // verus!
