//! The hash sink: a streaming hash algorithm that takes tokens.
use vstd::bytes::u64_to_le_bytes;
use vstd::prelude::*;
use crate::algorithm::Algorithm;
use crate::token::{
    blocks, header, lemma_blocks_add, lemma_blocks_one, token_blocks, Token, NAME_END,
};

verus! {

/// A streaming hash algorithm that is fed token by token. Each token is
/// written as blocks of its own, so that no two tokens run into each other.
pub struct HashSink<H> {
    hasher: H,
}

impl<H: Algorithm> View for HashSink<H> {
    type V = Seq<Seq<u8>>;

    /// The blocks that the algorithm has consumed, oldest first.
    closed spec fn view(&self) -> Seq<Seq<u8>> {
        self.hasher.written()
    }
}

impl<H: Algorithm> HashSink<H> {
    /// Wraps one instance of an algorithm, with what it has consumed.
    pub fn new(hasher: H) -> (sink: Self)
        ensures
            sink@ == hasher.written(),
    {
        HashSink { hasher }
    }

    /// Writes a name as one token: the algorithm consumes its blocks.
    pub fn write_name(&mut self, name: &str)
        ensures
            final(self)@ == old(self)@ + token_blocks(Token::Name(name@)),
    {
        let end: [u8; 1] = [NAME_END];
        self.hasher.write(name.as_bytes());
        self.hasher.write(end.as_slice());
        assert(end@ =~= seq![NAME_END]);
        assert(self@ =~= old(self)@ + token_blocks(Token::Name(name@)));
    }

    /// Writes an integer as one token: the algorithm consumes its block.
    pub fn write_count(&mut self, count: usize)
        ensures
            final(self)@ == old(self)@ + token_blocks(Token::Count(count)),
    {
        let bytes = u64_to_le_bytes(count as u64);
        self.hasher.write(bytes.as_slice());
        assert(self@ =~= old(self)@ + token_blocks(Token::Count(count)));
    }

    /// Writes a namespace tag and a name, the two tokens that open a shape.
    pub fn write_header(&mut self, tag: &str, name: &str)
        ensures
            final(self)@ == old(self)@ + blocks(header(tag@, name@)),
    {
        self.write_name(tag);
        self.write_name(name);
        proof {
            let first = seq![Token::Name(tag@)];
            let second = seq![Token::Name(name@)];
            lemma_blocks_one(Token::Name(tag@));
            lemma_blocks_one(Token::Name(name@));
            lemma_blocks_add(first, second);
            assert(header(tag@, name@) =~= first + second);
            assert(self@ =~= old(self)@ + blocks(header(tag@, name@)));
        }
    }

    /// Consumes the sink and returns the digest: what the algorithm makes of
    /// the blocks it has consumed.
    pub fn finalize(self) -> (digest: u64)
        ensures
            digest == H::digest(self@),
    {
        self.hasher.finish()
    }
}

} // verus!
