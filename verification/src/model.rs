//! The mathematical model of a shape and its canonical encoding.
use vstd::prelude::*;
use crate::algorithm::Algorithm;
use crate::token::{blocks, header, Token, ENUM, FIELD, PRIMITIVE, STANDARD, STRUCT};

verus! {

/// A member of a composite: its canonical name and the type it holds.
pub struct MemberModel<T> {
    pub name: Seq<char>,
    pub ty: T,
}

/// A variant of an enum-like composite: its canonical name and its members
/// in declaration order.
pub struct VariantModel<T> {
    pub name: Seq<char>,
    pub members: Seq<MemberModel<T>>,
}

/// A struct-like or enum-like definition whose names are resolved.
pub enum CompositeModel<T> {
    Struct { name: Seq<char>, fields: Seq<MemberModel<T>> },
    Enum { name: Seq<char>, variants: Seq<VariantModel<T>> },
}

impl<T> CompositeModel<T> {
    /// The canonical name of the composite.
    pub open spec fn name(self) -> Seq<char> {
        match self {
            CompositeModel::Struct { name, .. } => name,
            CompositeModel::Enum { name, .. } => name,
        }
    }
}

/// The canonical identity of a type.
pub enum ShapeModel {
    /// A scalar, known by its literal name.
    Primitive { name: Seq<char> },
    /// A standard container: its name, its integer parameters and the shapes
    /// nested in it, each in order.
    Standard { name: Seq<char>, lens: Seq<usize>, args: Seq<ShapeModel> },
    /// A user-defined struct or enum.
    Composite(CompositeModel<ShapeModel>),
}

/// The namespaces that keep the kinds of shapes apart.
pub enum Namespace {
    Primitive,
    Standard,
    Struct,
    Enum,
}

impl Namespace {
    /// The tag that marks the namespace in a token stream.
    pub open spec fn tag(self) -> Seq<char> {
        match self {
            Namespace::Primitive => PRIMITIVE@,
            Namespace::Standard => STANDARD@,
            Namespace::Struct => STRUCT@,
            Namespace::Enum => ENUM@,
        }
    }
}

/// The integer parameters of a standard container as tokens.
pub open spec fn counts(lens: Seq<usize>) -> Seq<Token> {
    Seq::new(lens.len(), |i: int| Token::Count(lens[i]))
}

/// The encodings of a sequence of shapes, one after the other.
pub open spec fn shapes_tokens(shapes: Seq<ShapeModel>) -> Seq<Token>
    decreases shapes, 0nat,
{
    if shapes.len() == 0 {
        Seq::empty()
    } else {
        shapes_tokens(shapes.drop_last()) + shapes.last().tokens()
    }
}

/// The encoding of one member: the field tag, the member's name, then the
/// encoding of the shape it holds.
pub open spec fn member_tokens(member: MemberModel<ShapeModel>) -> Seq<Token>
    decreases member, 2nat,
{
    header(FIELD@, member.name) + member.ty.tokens()
}

/// The encodings of a sequence of members, one after the other.
pub open spec fn members_tokens(members: Seq<MemberModel<ShapeModel>>) -> Seq<Token>
    decreases members, 0nat,
{
    if members.len() == 0 {
        Seq::empty()
    } else {
        members_tokens(members.drop_last()) + member_tokens(members.last())
    }
}

/// The encoding of one variant: its name, then its members. A variant
/// without members encodes to its name alone.
pub open spec fn variant_tokens(variant: VariantModel<ShapeModel>) -> Seq<Token>
    decreases variant, 2nat,
{
    seq![Token::Name(variant.name)] + members_tokens(variant.members)
}

/// The encodings of a sequence of variants, one after the other.
pub open spec fn variants_tokens(variants: Seq<VariantModel<ShapeModel>>) -> Seq<Token>
    decreases variants, 0nat,
{
    if variants.len() == 0 {
        Seq::empty()
    } else {
        variants_tokens(variants.drop_last()) + variant_tokens(variants.last())
    }
}

/// The encoding of a composite: its tag and canonical name, then its fields
/// or its variants in declaration order.
pub open spec fn composite_tokens(composite: CompositeModel<ShapeModel>) -> Seq<Token>
    decreases composite, 2nat,
{
    match composite {
        CompositeModel::Struct { name, fields } => header(STRUCT@, name) + members_tokens(fields),
        CompositeModel::Enum { name, variants } => header(ENUM@, name) + variants_tokens(variants),
    }
}

impl ShapeModel {
    /// The canonical encoding of a shape: the token stream that hashing it
    /// writes.
    pub open spec fn tokens(self) -> Seq<Token>
        decreases self, 2nat,
    {
        match self {
            ShapeModel::Primitive { name } => header(PRIMITIVE@, name),
            ShapeModel::Standard { name, lens, args } => header(STANDARD@, name) + counts(lens)
                + shapes_tokens(args),
            ShapeModel::Composite(composite) => composite_tokens(composite),
        }
    }

    /// The digest of the shape under the algorithm `H`: what a fresh
    /// instance of `H` finishes to once it has consumed the blocks of the
    /// shape's tokens.
    pub open spec fn digest<H: Algorithm>(self) -> u64 {
        H::digest(blocks(self.tokens()))
    }

    /// The namespace that the shape belongs to.
    pub open spec fn namespace(self) -> Namespace {
        match self {
            ShapeModel::Primitive { .. } => Namespace::Primitive,
            ShapeModel::Standard { .. } => Namespace::Standard,
            ShapeModel::Composite(CompositeModel::Struct { .. }) => Namespace::Struct,
            ShapeModel::Composite(CompositeModel::Enum { .. }) => Namespace::Enum,
        }
    }

    /// The namespace tag that opens the encoding.
    pub open spec fn tag(self) -> Seq<char> {
        self.namespace().tag()
    }

    /// The name that follows the tag.
    pub open spec fn name(self) -> Seq<char> {
        match self {
            ShapeModel::Primitive { name } => name,
            ShapeModel::Standard { name, .. } => name,
            ShapeModel::Composite(composite) => composite.name(),
        }
    }
}

/// Every encoding opens with the shape's tag and name.
pub proof fn lemma_tokens_open(shape: ShapeModel)
    ensures
        shape.tokens().len() >= 2,
        shape.tokens()[0] == Token::Name(shape.tag()),
        shape.tokens()[1] == Token::Name(shape.name()),
{
}

/// Shapes encode one after the other: the encoding of a concatenation is the
/// concatenation of the encodings.
pub proof fn lemma_shapes_tokens_add(a: Seq<ShapeModel>, b: Seq<ShapeModel>)
    ensures
        shapes_tokens(a + b) == shapes_tokens(a) + shapes_tokens(b),
    decreases b.len(),
{
    if b.len() == 0 {
        assert(a + b =~= a);
    } else {
        lemma_shapes_tokens_add(a, b.drop_last());
        assert((a + b).drop_last() =~= a + b.drop_last());
        assert((a + b).last() == b.last());
    }
}

/// Members encode one after the other.
pub proof fn lemma_members_tokens_add(
    a: Seq<MemberModel<ShapeModel>>,
    b: Seq<MemberModel<ShapeModel>>,
)
    ensures
        members_tokens(a + b) == members_tokens(a) + members_tokens(b),
    decreases b.len(),
{
    if b.len() == 0 {
        assert(a + b =~= a);
    } else {
        lemma_members_tokens_add(a, b.drop_last());
        assert((a + b).drop_last() =~= a + b.drop_last());
        assert((a + b).last() == b.last());
    }
}

/// Variants encode one after the other.
pub proof fn lemma_variants_tokens_add(
    a: Seq<VariantModel<ShapeModel>>,
    b: Seq<VariantModel<ShapeModel>>,
)
    ensures
        variants_tokens(a + b) == variants_tokens(a) + variants_tokens(b),
    decreases b.len(),
{
    if b.len() == 0 {
        assert(a + b =~= a);
    } else {
        lemma_variants_tokens_add(a, b.drop_last());
        assert((a + b).drop_last() =~= a + b.drop_last());
        assert((a + b).last() == b.last());
    }
}

} // verus!
