//! Types that hash as another type does.
use core::cell::{Cell, RefCell};
use core::mem::MaybeUninit;
use core::num::Wrapping;
use core::sync::atomic::{
    AtomicBool, AtomicI16, AtomicI32, AtomicI64, AtomicI8, AtomicU16, AtomicU32, AtomicU64,
    AtomicU8,
};
use std::collections::{BTreeMap, BTreeSet, HashMap, HashSet};
use std::rc::Rc;
use std::sync::{Arc, Mutex, RwLock};
use vstd::prelude::*;
use crate::model::ShapeModel;
use crate::shape::Shape;
use crate::TypeHash;

verus! {

/// `core::cell::Cell`, carried through as an opaque type.
#[verifier::external_type_specification]
#[verifier::external_body]
#[verifier::reject_recursive_types(T)]
pub struct ExCell<T: ?Sized>(Cell<T>);

/// `core::cell::RefCell`, carried through as an opaque type.
#[verifier::external_type_specification]
#[verifier::external_body]
#[verifier::reject_recursive_types(T)]
pub struct ExRefCell<T: ?Sized>(RefCell<T>);

/// `core::num::Wrapping`, carried through as an opaque type.
#[verifier::external_type_specification]
#[verifier::external_body]
#[verifier::reject_recursive_types(T)]
pub struct ExWrapping<T>(Wrapping<T>);

/// `std::sync::Mutex`, carried through as an opaque type.
#[verifier::external_type_specification]
#[verifier::external_body]
#[verifier::reject_recursive_types(T)]
pub struct ExMutex<T: ?Sized>(Mutex<T>);

/// `std::sync::RwLock`, carried through as an opaque type.
#[verifier::external_type_specification]
#[verifier::external_body]
#[verifier::reject_recursive_types(T)]
pub struct ExRwLock<T: ?Sized>(RwLock<T>);

/// A type whose shape is that of `Target`: it contributes nothing of its
/// own to the encoding.
///
/// A target may itself hash as another type. A chain of targets must end:
/// one that comes back to a type it has passed has no shape, and building
/// it would not come to an end. Nothing here detects such a chain: it is
/// for the one who declares an alias to see that none comes back.
///
/// An alias can be declared here only for a type that Verus knows. A type
/// whose declaration is bound by a trait of another crate, such as a
/// sequence with inline capacity, has none: its shape is built as the shape
/// of its target, with [`Shape::vec`].
pub trait SameTypeHash {
    /// The type whose shape stands in.
    type Target: TypeHash;
}

impl<T: SameTypeHash> TypeHash for T {
    open spec fn model() -> ShapeModel {
        <T::Target as TypeHash>::model()
    }

    fn shape() -> Shape {
        <T::Target as TypeHash>::shape()
    }
}

impl SameTypeHash for AtomicBool {
    type Target = bool;
}

impl SameTypeHash for AtomicI8 {
    type Target = i8;
}

impl SameTypeHash for AtomicI16 {
    type Target = i16;
}

impl SameTypeHash for AtomicI32 {
    type Target = i32;
}

impl SameTypeHash for AtomicI64 {
    type Target = i64;
}

impl SameTypeHash for AtomicU8 {
    type Target = u8;
}

impl SameTypeHash for AtomicU16 {
    type Target = u16;
}

impl SameTypeHash for AtomicU32 {
    type Target = u32;
}

impl SameTypeHash for AtomicU64 {
    type Target = u64;
}

impl<T: TypeHash> SameTypeHash for Wrapping<T> {
    type Target = T;
}

impl<T: TypeHash> SameTypeHash for BTreeSet<T> {
    type Target = HashSet<T>;
}

impl<T: TypeHash, U: TypeHash> SameTypeHash for BTreeMap<T, U> {
    type Target = HashMap<T, U>;
}

impl<T: TypeHash> SameTypeHash for MaybeUninit<T> {
    type Target = T;
}

impl<T: TypeHash> SameTypeHash for RefCell<T> {
    type Target = T;
}

impl<T: TypeHash> SameTypeHash for Cell<T> {
    type Target = T;
}

impl<T: TypeHash> SameTypeHash for Box<T> {
    type Target = T;
}

impl<T: TypeHash> SameTypeHash for Rc<T> {
    type Target = T;
}

impl<T: TypeHash> SameTypeHash for Arc<T> {
    type Target = T;
}

impl<T: TypeHash> SameTypeHash for Mutex<T> {
    type Target = T;
}

impl<T: TypeHash> SameTypeHash for RwLock<T> {
    type Target = T;
}

impl<T1: TypeHash> SameTypeHash for (T1,) {
    type Target = T1;
}

} // verus!
