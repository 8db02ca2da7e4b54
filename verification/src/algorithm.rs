//! The streaming hash algorithm that a sink writes into.
use core::hash::Hasher;
use std::collections::hash_map::DefaultHasher;
use vstd::prelude::*;
use vstd::std_specs::hash::DefaultHasherAdditionalSpecFns;

verus! {

/// A streaming hash algorithm: it consumes blocks of bytes one after the
/// other and finishes to a digest.
///
/// An algorithm is deterministic: the digest is a function of the blocks
/// that an instance has consumed, and a fresh instance has consumed none.
/// Two fresh instances of one algorithm that consume the same blocks thus
/// finish to the same digest.
pub trait Algorithm: Sized {
    /// The blocks that the instance has consumed, oldest first.
    spec fn written(&self) -> Seq<Seq<u8>>;

    /// The digest of an instance that has consumed `written`.
    spec fn digest(written: Seq<Seq<u8>>) -> u64;

    /// Makes an instance that has consumed nothing.
    fn fresh() -> (algorithm: Self)
        ensures
            algorithm.written() == Seq::<Seq<u8>>::empty(),
    ;

    /// Consumes one block.
    fn write(&mut self, bytes: &[u8])
        ensures
            final(self).written() == old(self).written().push(bytes@),
    ;

    /// Returns the digest of what was consumed so far.
    fn finish(&self) -> (digest: u64)
        ensures
            digest == Self::digest(self.written()),
    ;
}

impl Algorithm for DefaultHasher {
    open spec fn written(&self) -> Seq<Seq<u8>> {
        self@
    }

    open spec fn digest(written: Seq<Seq<u8>>) -> u64 {
        DefaultHasher::spec_finish(written)
    }

    fn fresh() -> DefaultHasher {
        DefaultHasher::new()
    }

    fn write(&mut self, bytes: &[u8]) {
        Hasher::write(self, bytes)
    }

    fn finish(&self) -> u64 {
        Hasher::finish(self)
    }
}

} // verus!
