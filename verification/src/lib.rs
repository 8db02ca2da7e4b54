//! Structural fingerprints of type shapes.
//!
//! A [`Shape`] describes a type by its name, the names of its members and the
//! shapes of the types they hold. Walking a shape writes a sequence of
//! [`Token`]s into a [`HashSink`], which hands each token to a streaming hash
//! [`Algorithm`] as blocks of bytes and finishes to a digest. Two types whose
//! shapes write the same tokens describe the same schema and have the same
//! digest.
use vstd::prelude::*;

pub mod algorithm;
pub mod derive;
pub mod laws;
pub mod model;
pub mod registry;
pub mod same_type;
pub mod scalar;
pub mod shape;
pub mod sink;
pub mod standard;
pub mod token;
pub mod tuple;

pub use crate::algorithm::Algorithm;
pub use crate::model::ShapeModel;
pub use crate::same_type::SameTypeHash;
pub use crate::shape::Shape;
pub use crate::sink::HashSink;
pub use crate::token::Token;

use crate::token::blocks;

verus! {

/// A type whose shape can be hashed.
pub trait TypeHash {
    /// The shape that stands for the type.
    spec fn model() -> ShapeModel;

    /// Builds the shape that stands for the type.
    fn shape() -> (shape: Shape)
        ensures
            shape@ == Self::model(),
    ;

    /// Writes the canonical encoding of the type's shape into the sink: the
    /// algorithm consumes the blocks of exactly those tokens.
    fn type_hash<H: Algorithm>(sink: &mut HashSink<H>)
        ensures
            final(sink)@ == old(sink)@ + blocks(Self::model().tokens()),
    {
        let shape = Self::shape();
        shape.type_hash(sink);
    }

    /// Hashes the type's shape with a fresh instance of the algorithm `H` and
    /// returns the digest: what `H` makes of the blocks that the shape's
    /// tokens are written as, and of nothing else.
    fn type_hash_one<H: Algorithm>() -> (digest: u64)
        ensures
            digest == Self::model().digest::<H>(),
    {
        let mut sink = HashSink::new(H::fresh());
        Self::type_hash(&mut sink);
        assert(sink@ =~= blocks(Self::model().tokens()));
        sink.finalize()
    }
}

} // verus!
