//! The tokens that a shape is encoded into.
use vstd::bytes::{
    lemma_auto_spec_u64_to_from_le_bytes, spec_u64_from_le_bytes, spec_u64_to_le_bytes,
};
use vstd::prelude::*;
use vstd::utf8::{decode_utf8, encode_scalar, encode_utf8, encode_utf8_decode_utf8};

verus! {

/// One discrete value of a token stream.
///
/// A stream is a `Seq<Token>`: the boundary between two tokens is part of the
/// stream, so `"ab"` followed by `"c"` and `"a"` followed by `"bc"` are
/// different streams.
pub enum Token {
    /// A namespace tag or a name.
    Name(Seq<char>),
    /// An integer parameter, such as the length of an array.
    Count(usize),
}

/// The namespace tag of a primitive shape.
pub const PRIMITIVE: &'static str = "@primitive@";

/// The namespace tag of a standard-container shape.
pub const STANDARD: &'static str = "@standard@";

/// The namespace tag of a struct-like composite.
pub const STRUCT: &'static str = "@struct@";

/// The namespace tag of an enum-like composite.
pub const ENUM: &'static str = "@enum@";

/// The namespace tag that precedes every member.
pub const FIELD: &'static str = "@field@";

/// The name that every positional member carries.
pub const ANONYMOUS: &'static str = "@ano@";

/// The byte that closes a name. No encoding of a name holds it
/// ([`lemma_name_has_no_end`]).
pub const NAME_END: u8 = 0xff;

/// The blocks of bytes that one token is written as.
///
/// A name is its UTF-8 encoding in one block, closed by a block that holds
/// the one byte `0xff`. An integer is one block of eight bytes, least
/// significant first.
pub open spec fn token_blocks(token: Token) -> Seq<Seq<u8>> {
    match token {
        Token::Name(name) => seq![encode_utf8(name), seq![NAME_END]],
        Token::Count(count) => seq![spec_u64_to_le_bytes(count as u64)],
    }
}

/// The blocks of bytes that a token stream is written as: those of its
/// tokens, one after the other.
pub open spec fn blocks(tokens: Seq<Token>) -> Seq<Seq<u8>>
    decreases tokens.len(),
{
    if tokens.len() == 0 {
        Seq::empty()
    } else {
        blocks(tokens.drop_last()) + token_blocks(tokens.last())
    }
}

/// Streams are written one after the other: the blocks of a concatenation
/// are the blocks of its parts.
pub proof fn lemma_blocks_add(a: Seq<Token>, b: Seq<Token>)
    ensures
        blocks(a + b) == blocks(a) + blocks(b),
    decreases b.len(),
{
    if b.len() == 0 {
        assert(a + b =~= a);
        assert(blocks(a) + blocks(b) =~= blocks(a));
    } else {
        lemma_blocks_add(a, b.drop_last());
        assert((a + b).drop_last() =~= a + b.drop_last());
        assert((a + b).last() == b.last());
        assert(blocks(a + b) =~= blocks(a) + blocks(b));
    }
}

/// The blocks of a stream of one token are the blocks of the token.
pub proof fn lemma_blocks_one(token: Token)
    ensures
        blocks(seq![token]) == token_blocks(token),
{
    assert(seq![token].drop_last() =~= Seq::<Token>::empty());
    assert(blocks(Seq::<Token>::empty()) =~= Seq::<Seq<u8>>::empty());
    assert(seq![token].last() == token);
    assert(blocks(seq![token]) =~= token_blocks(token));
}

/// A token is told by its blocks: two tokens that are written as the same
/// blocks are the same token.
pub proof fn lemma_token_blocks_injective(a: Token, b: Token)
    requires
        token_blocks(a) == token_blocks(b),
    ensures
        a == b,
{
    lemma_auto_spec_u64_to_from_le_bytes();
    match (a, b) {
        (Token::Name(x), Token::Name(y)) => {
            assert(token_blocks(a)[0] == encode_utf8(x));
            assert(token_blocks(b)[0] == encode_utf8(y));
            encode_utf8_decode_utf8(x);
            encode_utf8_decode_utf8(y);
            assert(decode_utf8(encode_utf8(x)) == x);
            assert(decode_utf8(encode_utf8(y)) == y);
        },
        (Token::Count(x), Token::Count(y)) => {
            assert(token_blocks(a)[0] == spec_u64_to_le_bytes(x as u64));
            assert(token_blocks(b)[0] == spec_u64_to_le_bytes(y as u64));
            assert(spec_u64_from_le_bytes(spec_u64_to_le_bytes(x as u64)) == x as u64);
            assert(spec_u64_from_le_bytes(spec_u64_to_le_bytes(y as u64)) == y as u64);
        },
        (Token::Name(_), Token::Count(_)) => {
            assert(token_blocks(a).len() == 2);
            assert(token_blocks(b).len() == 1);
        },
        (Token::Count(_), Token::Name(_)) => {
            assert(token_blocks(a).len() == 1);
            assert(token_blocks(b).len() == 2);
        },
    }
}

/// The last block of a token tells its kind: a name ends in a block of one
/// byte, an integer is a block of eight.
proof fn lemma_last_block(token: Token)
    ensures
        token_blocks(token).len() >= 1,
        token is Name ==> token_blocks(token).len() == 2 && token_blocks(token).last().len() == 1,
        token is Count ==> token_blocks(token).len() == 1 && token_blocks(token).last().len() == 8,
{
    lemma_auto_spec_u64_to_from_le_bytes();
    match token {
        Token::Name(name) => {
            assert(token_blocks(token).last() == seq![NAME_END]);
        },
        Token::Count(count) => {
            assert(token_blocks(token).last() == spec_u64_to_le_bytes(count as u64));
        },
    }
}

/// Boundary safety: a token stream is told by its blocks. Two streams that
/// are written as the same blocks are the same stream, token by token, so
/// no two tokens run into each other and none is taken for another.
pub proof fn lemma_blocks_injective(a: Seq<Token>, b: Seq<Token>)
    requires
        blocks(a) == blocks(b),
    ensures
        a == b,
    decreases a.len(),
{
    if a.len() == 0 {
        if b.len() > 0 {
            lemma_last_block(b.last());
            assert(blocks(b).len() >= 1);
        }
        assert(a =~= b);
    } else if b.len() == 0 {
        lemma_last_block(a.last());
        assert(blocks(a).len() >= 1);
    } else {
        let front_a = blocks(a.drop_last());
        let front_b = blocks(b.drop_last());
        let last_a = token_blocks(a.last());
        let last_b = token_blocks(b.last());
        lemma_last_block(a.last());
        lemma_last_block(b.last());
        assert((front_a + last_a).last() == last_a.last());
        assert((front_b + last_b).last() == last_b.last());
        assert(last_a.len() == last_b.len());
        assert(front_a.len() == front_b.len());
        assert(front_a =~= (front_a + last_a).take(front_a.len() as int));
        assert(front_b =~= (front_b + last_b).take(front_b.len() as int));
        assert(last_a =~= (front_a + last_a).skip(front_a.len() as int));
        assert(last_b =~= (front_b + last_b).skip(front_b.len() as int));
        lemma_token_blocks_injective(a.last(), b.last());
        lemma_blocks_injective(a.drop_last(), b.drop_last());
        assert(a =~= a.drop_last().push(a.last()));
        assert(b =~= b.drop_last().push(b.last()));
    }
}

/// No byte of the encoding of one character is the closing byte.
proof fn lemma_scalar_has_no_end(scalar: u32)
    ensures
        encode_scalar(scalar).len() >= 1,
        forall|i: int|
            0 <= i < encode_scalar(scalar).len() ==> #[trigger] encode_scalar(scalar)[i]
                != NAME_END,
{
    assert((scalar & 0x7F) as u8 != 0xffu8) by (bit_vector);
    assert(0xC0u8 | ((scalar >> 6) & 0x1F) as u8 != 0xffu8) by (bit_vector);
    assert(0xE0u8 | ((scalar >> 12) & 0x0F) as u8 != 0xffu8) by (bit_vector);
    assert(0xF0u8 | ((scalar >> 18) & 0x7) as u8 != 0xffu8) by (bit_vector);
    assert(0x80u8 | (scalar & 0x3F) as u8 != 0xffu8) by (bit_vector);
    assert(0x80u8 | ((scalar >> 6) & 0x3F) as u8 != 0xffu8) by (bit_vector);
    assert(0x80u8 | ((scalar >> 12) & 0x3F) as u8 != 0xffu8) by (bit_vector);
}

/// No byte of the encoding of a name is the closing byte.
pub proof fn lemma_name_has_no_end(name: Seq<char>)
    ensures
        forall|i: int|
            0 <= i < encode_utf8(name).len() ==> #[trigger] encode_utf8(name)[i] != NAME_END,
    decreases name.len(),
{
    if name.len() > 0 {
        let first = encode_scalar(name[0] as u32);
        let rest = encode_utf8(name.drop_first());
        lemma_scalar_has_no_end(name[0] as u32);
        lemma_name_has_no_end(name.drop_first());
        assert forall|i: int| 0 <= i < encode_utf8(name).len() implies #[trigger] encode_utf8(
            name,
        )[i] != NAME_END by {
            if i < first.len() {
                assert(encode_utf8(name)[i] == first[i]);
            } else {
                assert(encode_utf8(name)[i] == rest[i - first.len()]);
            }
        }
    }
}

/// Whether a stream holds names only.
pub open spec fn names_only(tokens: Seq<Token>) -> bool {
    forall|i: int| 0 <= i < tokens.len() ==> #[trigger] tokens[i] is Name
}

/// The bytes that a token stream is written as, in one run: its blocks one
/// after the other, with nothing between them.
pub open spec fn bytes(tokens: Seq<Token>) -> Seq<u8> {
    blocks(tokens).flatten()
}

/// The bytes of a stream that ends in a name are the bytes of what precedes
/// it, the encoding of the name and the closing byte.
proof fn lemma_bytes_of_name(front: Seq<Token>, name: Seq<char>)
    ensures
        bytes(front.push(Token::Name(name))) == bytes(front) + encode_utf8(name) + seq![NAME_END],
{
    let all = front.push(Token::Name(name));
    assert(all.drop_last() =~= front);
    assert(all.last() == Token::Name(name));
    assert(blocks(all) =~= blocks(front).push(encode_utf8(name)).push(seq![NAME_END]));
    blocks(front).lemma_flatten_push(encode_utf8(name));
    blocks(front).push(encode_utf8(name)).lemma_flatten_push(seq![NAME_END]);
}

/// Boundary safety in bytes: a stream of names is told by its bytes in one
/// run. The closing byte occurs in no name, so it marks where each name
/// ends: `"ab"` then `"c"` and `"a"` then `"bc"` are different runs.
pub proof fn lemma_names_bytes_injective(a: Seq<Token>, b: Seq<Token>)
    requires
        names_only(a),
        names_only(b),
        bytes(a) == bytes(b),
    ensures
        a == b,
    decreases a.len(),
{
    if a.len() == 0 || b.len() == 0 {
        if a.len() > 0 {
            let x = a.last()->Name_0;
            assert(a =~= a.drop_last().push(Token::Name(x)));
            lemma_bytes_of_name(a.drop_last(), x);
            assert(bytes(b) =~= Seq::<u8>::empty());
        }
        if b.len() > 0 {
            let y = b.last()->Name_0;
            assert(b =~= b.drop_last().push(Token::Name(y)));
            lemma_bytes_of_name(b.drop_last(), y);
            assert(bytes(a) =~= Seq::<u8>::empty());
        }
        assert(a =~= b);
    } else {
        let x = a.last()->Name_0;
        let y = b.last()->Name_0;
        let front_a = a.drop_last();
        let front_b = b.drop_last();
        assert(a =~= front_a.push(Token::Name(x)));
        assert(b =~= front_b.push(Token::Name(y)));
        lemma_bytes_of_name(front_a, x);
        lemma_bytes_of_name(front_b, y);
        let (head_a, head_b) = (bytes(front_a), bytes(front_b));
        let (name_a, name_b) = (encode_utf8(x), encode_utf8(y));
        let run_a = head_a + name_a;
        let run_b = head_b + name_b;
        assert(run_a =~= bytes(a).drop_last());
        assert(run_b =~= bytes(b).drop_last());
        lemma_name_has_no_end(x);
        lemma_name_has_no_end(y);
        if head_a.len() < head_b.len() {
            lemma_bytes_end(front_b);
            let at = head_b.len() - 1;
            assert(run_b[at] == head_b[at]);
            assert(run_a[at] == name_a[at - head_a.len()]);
        } else if head_b.len() < head_a.len() {
            lemma_bytes_end(front_a);
            let at = head_a.len() - 1;
            assert(run_a[at] == head_a[at]);
            assert(run_b[at] == name_b[at - head_b.len()]);
        }
        assert(head_a =~= run_a.take(head_a.len() as int));
        assert(head_b =~= run_b.take(head_b.len() as int));
        assert(name_a =~= run_a.skip(head_a.len() as int));
        assert(name_b =~= run_b.skip(head_b.len() as int));
        encode_utf8_decode_utf8(x);
        encode_utf8_decode_utf8(y);
        assert(decode_utf8(encode_utf8(x)) == x);
        assert(decode_utf8(encode_utf8(y)) == y);
        assert(names_only(front_a));
        assert(names_only(front_b));
        lemma_names_bytes_injective(front_a, front_b);
    }
}

/// The bytes of a stream of names that is not empty end in the closing
/// byte.
proof fn lemma_bytes_end(tokens: Seq<Token>)
    requires
        names_only(tokens),
        bytes(tokens).len() > 0,
    ensures
        bytes(tokens).last() == NAME_END,
{
    if tokens.len() == 0 {
        assert(blocks(tokens) =~= Seq::<Seq<u8>>::empty());
    } else {
        let x = tokens.last()->Name_0;
        assert(tokens =~= tokens.drop_last().push(Token::Name(x)));
        lemma_bytes_of_name(tokens.drop_last(), x);
    }
}

/// The two tokens that open every shape: its namespace tag and its name.
pub open spec fn header(tag: Seq<char>, name: Seq<char>) -> Seq<Token> {
    seq![Token::Name(tag), Token::Name(name)]
}

/// The five namespace tags are five different names.
pub proof fn lemma_tags_distinct()
    ensures
        PRIMITIVE@ != STANDARD@,
        PRIMITIVE@ != STRUCT@,
        PRIMITIVE@ != ENUM@,
        PRIMITIVE@ != FIELD@,
        STANDARD@ != STRUCT@,
        STANDARD@ != ENUM@,
        STANDARD@ != FIELD@,
        STRUCT@ != ENUM@,
        STRUCT@ != FIELD@,
        ENUM@ != FIELD@,
{
    reveal_strlit("@primitive@");
    reveal_strlit("@standard@");
    reveal_strlit("@struct@");
    reveal_strlit("@enum@");
    reveal_strlit("@field@");
    assert(PRIMITIVE@.len() == 11);
    assert(STANDARD@.len() == 10);
    assert(STRUCT@.len() == 8);
    assert(ENUM@.len() == 6);
    assert(FIELD@.len() == 7);
}

} // verus!
