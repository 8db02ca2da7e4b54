//! What holds of the encoding, stated over the models.
use std::collections::{BTreeMap, BTreeSet, HashMap, HashSet};
use std::rc::Rc;
use std::sync::Arc;
use vstd::prelude::*;
use crate::algorithm::Algorithm;
use crate::derive::{
    canonical, composite_of, declared_name, lemma_declared_is_canonical,
    lemma_override_is_canonical, member_of, names, overrides, resolve_override, DeriveError,
    FieldDef, ItemDef,
};
use crate::model::{
    composite_tokens, lemma_members_tokens_add, lemma_shapes_tokens_add, lemma_tokens_open,
    lemma_variants_tokens_add, member_tokens, members_tokens, shapes_tokens, variant_tokens,
    variants_tokens, CompositeModel, MemberModel, ShapeModel, VariantModel,
};
use crate::registry::{Primitive, ARRAY, MAP, OPTION, RESULT, SET, STRING, TUPLE, VEC};
use crate::token::{
    blocks, bytes, lemma_blocks_injective, lemma_names_bytes_injective, lemma_tags_distinct,
    names_only, Token,
};
use crate::TypeHash;

verus! {

/// Determinism: the digest of a shape is a function of its token stream and
/// of the algorithm. Two shapes with the same stream have the same digest
/// under every algorithm, however often and wherever they are hashed.
pub proof fn lemma_equal_streams_equal_digests<H: Algorithm>(a: ShapeModel, b: ShapeModel)
    requires
        a.tokens() == b.tokens(),
    ensures
        a.digest::<H>() == b.digest::<H>(),
{
}

/// Boundary safety: two different token streams are written as different
/// blocks, so the algorithm never consumes the same for both.
pub proof fn lemma_boundary_safety(a: Seq<Token>, b: Seq<Token>)
    requires
        a != b,
    ensures
        blocks(a) != blocks(b),
{
    if blocks(a) == blocks(b) {
        lemma_blocks_injective(a, b);
    }
}

/// Boundary safety in bytes: two different streams of names are written as
/// different runs of bytes, also for an algorithm that takes all that it
/// consumes as one run.
pub proof fn lemma_boundary_safety_in_bytes(a: Seq<Token>, b: Seq<Token>)
    requires
        names_only(a),
        names_only(b),
        a != b,
    ensures
        bytes(a) != bytes(b),
{
    if bytes(a) == bytes(b) {
        lemma_names_bytes_injective(a, b);
    }
}

/// Two streams diverge when they hold different tokens at a position that
/// both have: neither is then the beginning of the other.
pub open spec fn diverge(a: Seq<Token>, b: Seq<Token>) -> bool {
    exists|at: int| 0 <= at < a.len() && at < b.len() && a[at] != b[at]
}

/// Whatever precedes and follows two diverging parts, the streams differ.
pub proof fn lemma_diverge_in_context(
    before: Seq<Token>,
    a: Seq<Token>,
    b: Seq<Token>,
    after_a: Seq<Token>,
    after_b: Seq<Token>,
)
    requires
        diverge(a, b),
    ensures
        diverge(before + a + after_a, before + b + after_b),
        before + a + after_a != before + b + after_b,
{
    let at = choose|at: int| 0 <= at < a.len() && at < b.len() && a[at] != b[at];
    assert((before + a + after_a)[before.len() + at] == a[at]);
    assert((before + b + after_b)[before.len() + at] == b[at]);
}

/// A sequence is its beginning, one element and its end.
proof fn lemma_split_at<A>(s: Seq<A>, at: int)
    requires
        0 <= at < s.len(),
    ensures
        s == s.take(at) + seq![s[at]] + s.skip(at + 1),
{
    assert(s =~= s.take(at) + seq![s[at]] + s.skip(at + 1));
}

/// The encoding of a sequence of members around the member at `at`.
proof fn lemma_members_split(members: Seq<MemberModel<ShapeModel>>, at: int)
    requires
        0 <= at < members.len(),
    ensures
        members_tokens(members) == members_tokens(members.take(at)) + member_tokens(members[at])
            + members_tokens(members.skip(at + 1)),
{
    lemma_split_at(members, at);
    lemma_members_tokens_add(members.take(at) + seq![members[at]], members.skip(at + 1));
    lemma_members_tokens_add(members.take(at), seq![members[at]]);
    assert(seq![members[at]].drop_last() =~= Seq::<MemberModel<ShapeModel>>::empty());
    assert(members_tokens(Seq::<MemberModel<ShapeModel>>::empty()) =~= Seq::<Token>::empty());
    assert(seq![members[at]].last() == members[at]);
    assert(members_tokens(seq![members[at]]) =~= member_tokens(members[at]));
}

/// The encoding of a sequence of variants around the variant at `at`.
proof fn lemma_variants_split(variants: Seq<VariantModel<ShapeModel>>, at: int)
    requires
        0 <= at < variants.len(),
    ensures
        variants_tokens(variants) == variants_tokens(variants.take(at)) + variant_tokens(
            variants[at],
        ) + variants_tokens(variants.skip(at + 1)),
{
    lemma_split_at(variants, at);
    lemma_variants_tokens_add(variants.take(at) + seq![variants[at]], variants.skip(at + 1));
    lemma_variants_tokens_add(variants.take(at), seq![variants[at]]);
    assert(seq![variants[at]].drop_last() =~= Seq::<VariantModel<ShapeModel>>::empty());
    assert(variants_tokens(Seq::<VariantModel<ShapeModel>>::empty()) =~= Seq::<Token>::empty());
    assert(seq![variants[at]].last() == variants[at]);
    assert(variants_tokens(seq![variants[at]]) =~= variant_tokens(variants[at]));
}

/// The encoding of a sequence of shapes around the shape at `at`.
proof fn lemma_shapes_split(shapes: Seq<ShapeModel>, at: int)
    requires
        0 <= at < shapes.len(),
    ensures
        shapes_tokens(shapes) == shapes_tokens(shapes.take(at)) + shapes[at].tokens()
            + shapes_tokens(shapes.skip(at + 1)),
{
    lemma_split_at(shapes, at);
    lemma_shapes_tokens_add(shapes.take(at) + seq![shapes[at]], shapes.skip(at + 1));
    lemma_shapes_tokens_add(shapes.take(at), seq![shapes[at]]);
    assert(seq![shapes[at]].drop_last() =~= Seq::<ShapeModel>::empty());
    assert(shapes_tokens(Seq::<ShapeModel>::empty()) =~= Seq::<Token>::empty());
    assert(seq![shapes[at]].last() == shapes[at]);
    assert(shapes_tokens(seq![shapes[at]]) =~= shapes[at].tokens());
}

/// Two member sequences that agree up to a position where their members
/// diverge encode differently, whatever follows.
pub proof fn lemma_members_differ_at(
    a: Seq<MemberModel<ShapeModel>>,
    b: Seq<MemberModel<ShapeModel>>,
    at: int,
)
    requires
        0 <= at < a.len(),
        at < b.len(),
        a.take(at) == b.take(at),
        diverge(member_tokens(a[at]), member_tokens(b[at])),
    ensures
        diverge(members_tokens(a), members_tokens(b)),
        members_tokens(a) != members_tokens(b),
{
    lemma_members_split(a, at);
    lemma_members_split(b, at);
    lemma_diverge_in_context(
        members_tokens(a.take(at)),
        member_tokens(a[at]),
        member_tokens(b[at]),
        members_tokens(a.skip(at + 1)),
        members_tokens(b.skip(at + 1)),
    );
}

/// Two variant sequences that agree up to a position where their variants
/// diverge encode differently, whatever follows.
pub proof fn lemma_variants_differ_at(
    a: Seq<VariantModel<ShapeModel>>,
    b: Seq<VariantModel<ShapeModel>>,
    at: int,
)
    requires
        0 <= at < a.len(),
        at < b.len(),
        a.take(at) == b.take(at),
        diverge(variant_tokens(a[at]), variant_tokens(b[at])),
    ensures
        diverge(variants_tokens(a), variants_tokens(b)),
        variants_tokens(a) != variants_tokens(b),
{
    lemma_variants_split(a, at);
    lemma_variants_split(b, at);
    lemma_diverge_in_context(
        variants_tokens(a.take(at)),
        variant_tokens(a[at]),
        variant_tokens(b[at]),
        variants_tokens(a.skip(at + 1)),
        variants_tokens(b.skip(at + 1)),
    );
}

/// Two shape sequences that agree up to a position where their shapes
/// diverge encode differently, whatever follows.
pub proof fn lemma_shapes_differ_at(a: Seq<ShapeModel>, b: Seq<ShapeModel>, at: int)
    requires
        0 <= at < a.len(),
        at < b.len(),
        a.take(at) == b.take(at),
        diverge(a[at].tokens(), b[at].tokens()),
    ensures
        diverge(shapes_tokens(a), shapes_tokens(b)),
        shapes_tokens(a) != shapes_tokens(b),
{
    lemma_shapes_split(a, at);
    lemma_shapes_split(b, at);
    lemma_diverge_in_context(
        shapes_tokens(a.take(at)),
        a[at].tokens(),
        b[at].tokens(),
        shapes_tokens(a.skip(at + 1)),
        shapes_tokens(b.skip(at + 1)),
    );
}

/// Members with different canonical names diverge, whatever they hold.
pub proof fn lemma_member_names_diverge(a: MemberModel<ShapeModel>, b: MemberModel<ShapeModel>)
    requires
        a.name != b.name,
    ensures
        diverge(member_tokens(a), member_tokens(b)),
{
    assert(member_tokens(a)[1] == Token::Name(a.name));
    assert(member_tokens(b)[1] == Token::Name(b.name));
}

/// Members with the same name diverge where the shapes they hold do.
pub proof fn lemma_member_shapes_diverge(a: MemberModel<ShapeModel>, b: MemberModel<ShapeModel>)
    requires
        diverge(a.ty.tokens(), b.ty.tokens()),
    ensures
        diverge(member_tokens(a), member_tokens(b)),
{
    let at = choose|at: int|
        0 <= at < a.ty.tokens().len() && at < b.ty.tokens().len() && a.ty.tokens()[at]
            != b.ty.tokens()[at];
    assert(member_tokens(a)[at + 2] == a.ty.tokens()[at]);
    assert(member_tokens(b)[at + 2] == b.ty.tokens()[at]);
}

/// Variants with different canonical names diverge, whatever their members.
pub proof fn lemma_variant_names_diverge(a: VariantModel<ShapeModel>, b: VariantModel<ShapeModel>)
    requires
        a.name != b.name,
    ensures
        diverge(variant_tokens(a), variant_tokens(b)),
{
    assert(variant_tokens(a)[0] == Token::Name(a.name));
    assert(variant_tokens(b)[0] == Token::Name(b.name));
}

/// Variants with the same name diverge where their members do.
pub proof fn lemma_variant_members_diverge(
    a: VariantModel<ShapeModel>,
    b: VariantModel<ShapeModel>,
)
    requires
        diverge(members_tokens(a.members), members_tokens(b.members)),
    ensures
        diverge(variant_tokens(a), variant_tokens(b)),
{
    let at = choose|at: int|
        0 <= at < members_tokens(a.members).len() && at < members_tokens(b.members).len()
            && members_tokens(a.members)[at] != members_tokens(b.members)[at];
    assert(variant_tokens(a)[at + 1] == members_tokens(a.members)[at]);
    assert(variant_tokens(b)[at + 1] == members_tokens(b.members)[at]);
}

/// Shapes with different tags or different names diverge, whatever is
/// nested in them.
pub proof fn lemma_shape_heads_diverge(a: ShapeModel, b: ShapeModel)
    requires
        a.tag() != b.tag() || a.name() != b.name(),
    ensures
        diverge(a.tokens(), b.tokens()),
        a.tokens() != b.tokens(),
{
    lemma_tokens_open(a);
    lemma_tokens_open(b);
    if a.tag() != b.tag() {
        assert(a.tokens()[0] != b.tokens()[0]);
    } else {
        assert(a.tokens()[1] != b.tokens()[1]);
    }
}

/// The sequence `s` with the elements at `i` and `j` exchanged.
pub open spec fn exchanged<A>(s: Seq<A>, i: int, j: int) -> Seq<A> {
    s.update(i, s[j]).update(j, s[i])
}

/// Name sensitivity: composites with different canonical names encode
/// differently, whatever their members are. The declared identifier enters
/// only through the canonical name, so an override that makes the names
/// equal is the one way for two differently declared items to agree.
pub proof fn lemma_name_sensitivity(a: CompositeModel<ShapeModel>, b: CompositeModel<ShapeModel>)
    requires
        a.name() != b.name(),
    ensures
        composite_tokens(a) != composite_tokens(b),
{
    lemma_shape_heads_diverge(ShapeModel::Composite(a), ShapeModel::Composite(b));
}

/// An item's identifier and attributes enter its composite through the
/// canonical name alone: two definitions with the same body and the same
/// canonical name have the same composite.
pub proof fn lemma_override_equalizes<T>(a: ItemDef<T>, b: ItemDef<T>)
    requires
        a.data == b.data,
        canonical(a.attrs@, a.ident@) == canonical(b.attrs@, b.ident@),
    ensures
        composite_of(a) == composite_of(b),
{
}

/// Name sensitivity, the other half: an item declared under another
/// identifier, whose override is the identifier of the first, has the
/// composite of the first. Once overridden, the declared identifier leaves
/// no trace.
pub proof fn lemma_override_leaves_no_trace<T>(a: ItemDef<T>, b: ItemDef<T>)
    requires
        a.data == b.data,
        overrides(a.attrs@).len() == 0,
        overrides(b.attrs@).len() == 1,
        names(overrides(b.attrs@)[0], a.ident@),
    ensures
        composite_of(b) == composite_of(a),
{
    lemma_declared_is_canonical(a.attrs@, a.ident@);
    lemma_override_is_canonical(b.attrs@, b.ident@, a.ident@);
}

/// Field renaming, the other half: a field declared under another
/// identifier, whose override is the identifier of the first, gives the
/// member that the first gives. So does a named field whose override is
/// the anonymous marker and a positional field.
pub proof fn lemma_override_restores_field<T>(a: FieldDef<T>, b: FieldDef<T>)
    requires
        a.ty == b.ty,
        overrides(a.attrs@).len() == 0,
        overrides(b.attrs@).len() == 1,
        names(overrides(b.attrs@)[0], declared_name(a)),
    ensures
        member_of(b) == member_of(a),
        member_of(a) == Ok::<MemberModel<T>, DeriveError>(
            MemberModel { name: declared_name(a), ty: a.ty },
        ),
{
    lemma_declared_is_canonical(a.attrs@, declared_name(a));
    lemma_override_is_canonical(b.attrs@, declared_name(b), declared_name(a));
}

/// Field renaming: a field without an override takes the name it was
/// declared under, so declaring it under another name gives another member.
pub proof fn lemma_rename_changes_member<T>(a: FieldDef<T>, b: FieldDef<T>)
    requires
        resolve_override(a.attrs@) == Ok::<Option<Seq<char>>, DeriveError>(None),
        resolve_override(b.attrs@) == Ok::<Option<Seq<char>>, DeriveError>(None),
        a.ident is Some,
        b.ident is Some,
        a.ident.unwrap()@ != b.ident.unwrap()@,
    ensures
        member_of(a) is Ok,
        member_of(b) is Ok,
        member_of(a).unwrap().name != member_of(b).unwrap().name,
{
}

/// Field renaming: a field declared under another name, whose override is
/// the canonical name of the first field, gives the member that the first
/// gives.
pub proof fn lemma_override_restores_member<T>(a: FieldDef<T>, b: FieldDef<T>)
    requires
        member_of(a) is Ok,
        a.ty == b.ty,
        resolve_override(b.attrs@) == Ok::<Option<Seq<char>>, DeriveError>(
            Some(member_of(a).unwrap().name),
        ),
    ensures
        member_of(b) == member_of(a),
{
}

/// Field renaming: a struct in which one member has another name encodes
/// differently, whatever the other members are.
pub proof fn lemma_renamed_member_changes_stream(
    name: Seq<char>,
    fields: Seq<MemberModel<ShapeModel>>,
    at: int,
    renamed: Seq<char>,
)
    requires
        0 <= at < fields.len(),
        renamed != fields[at].name,
    ensures
        composite_tokens(CompositeModel::Struct { name, fields }) != composite_tokens(
            CompositeModel::Struct {
                name,
                fields: fields.update(at, MemberModel { name: renamed, ty: fields[at].ty }),
            },
        ),
{
    let other = fields.update(at, MemberModel { name: renamed, ty: fields[at].ty });
    lemma_member_names_diverge(fields[at], other[at]);
    assert(fields.take(at) =~= other.take(at));
    lemma_members_differ_at(fields, other, at);
    assert(composite_tokens(CompositeModel::Struct { name, fields }).skip(2) =~= members_tokens(
        fields,
    ));
    assert(composite_tokens(CompositeModel::Struct { name, fields: other }).skip(2)
        =~= members_tokens(other));
}

/// Field renaming: an enum in which one member of one variant has another
/// name encodes differently, whatever the other members and variants are.
pub proof fn lemma_renamed_variant_member_changes_stream(
    name: Seq<char>,
    variants: Seq<VariantModel<ShapeModel>>,
    which: int,
    at: int,
    renamed: Seq<char>,
)
    requires
        0 <= which < variants.len(),
        0 <= at < variants[which].members.len(),
        renamed != variants[which].members[at].name,
    ensures
        composite_tokens(CompositeModel::Enum { name, variants }) != composite_tokens(
            CompositeModel::Enum {
                name,
                variants: variants.update(
                    which,
                    VariantModel {
                        name: variants[which].name,
                        members: variants[which].members.update(
                            at,
                            MemberModel { name: renamed, ty: variants[which].members[at].ty },
                        ),
                    },
                ),
            },
        ),
{
    let members = variants[which].members;
    let changed = members.update(at, MemberModel { name: renamed, ty: members[at].ty });
    let other = variants.update(
        which,
        VariantModel { name: variants[which].name, members: changed },
    );
    lemma_member_names_diverge(members[at], changed[at]);
    assert(members.take(at) =~= changed.take(at));
    lemma_members_differ_at(members, changed, at);
    lemma_variant_members_diverge(variants[which], other[which]);
    assert(variants.take(which) =~= other.take(which));
    lemma_variants_differ_at(variants, other, which);
    assert(composite_tokens(CompositeModel::Enum { name, variants }).skip(2) =~= variants_tokens(
        variants,
    ));
    assert(composite_tokens(CompositeModel::Enum { name, variants: other }).skip(2)
        =~= variants_tokens(other));
}

/// Order sensitivity: exchanging two members whose encodings diverge
/// changes the encoding of the members. Members with different canonical
/// names always diverge.
pub proof fn lemma_members_order(members: Seq<MemberModel<ShapeModel>>, i: int, j: int)
    requires
        0 <= i < j < members.len(),
        diverge(member_tokens(members[i]), member_tokens(members[j])),
    ensures
        members_tokens(exchanged(members, i, j)) != members_tokens(members),
{
    let other = exchanged(members, i, j);
    assert(members.take(i) =~= other.take(i));
    lemma_members_differ_at(members, other, i);
}

/// Order sensitivity: exchanging two variants whose encodings diverge
/// changes the encoding of the variants. Variants with different canonical
/// names always diverge.
pub proof fn lemma_variants_order(variants: Seq<VariantModel<ShapeModel>>, i: int, j: int)
    requires
        0 <= i < j < variants.len(),
        diverge(variant_tokens(variants[i]), variant_tokens(variants[j])),
    ensures
        variants_tokens(exchanged(variants, i, j)) != variants_tokens(variants),
{
    let other = exchanged(variants, i, j);
    assert(variants.take(i) =~= other.take(i));
    lemma_variants_differ_at(variants, other, i);
}

/// Order sensitivity: exchanging two nested shapes whose encodings diverge
/// changes the encoding of the sequence. Shapes with different tags or
/// names always diverge.
pub proof fn lemma_shapes_order(shapes: Seq<ShapeModel>, i: int, j: int)
    requires
        0 <= i < j < shapes.len(),
        diverge(shapes[i].tokens(), shapes[j].tokens()),
    ensures
        shapes_tokens(exchanged(shapes, i, j)) != shapes_tokens(shapes),
{
    let other = exchanged(shapes, i, j);
    assert(shapes.take(i) =~= other.take(i));
    lemma_shapes_differ_at(shapes, other, i);
}

/// Streams that share what precedes and what follows are equal exactly
/// when what lies between is.
pub proof fn lemma_cancel_context(
    before: Seq<Token>,
    a: Seq<Token>,
    b: Seq<Token>,
    after: Seq<Token>,
)
    ensures
        before + a + after == before + b + after <==> a == b,
{
    if before + a + after == before + b + after {
        assert(a.len() == b.len()) by {
            assert((before + a + after).len() == (before + b + after).len());
        }
        assert forall|k: int| 0 <= k < a.len() implies a[k] == b[k] by {
            assert((before + a + after)[before.len() + k] == a[k]);
            assert((before + b + after)[before.len() + k] == b[k]);
        }
        assert(a =~= b);
    }
}

/// A sequence around two of its positions.
proof fn lemma_split_pair<A>(s: Seq<A>, i: int, j: int)
    requires
        0 <= i < j < s.len(),
    ensures
        s == s.take(i) + seq![s[i]] + s.subrange(i + 1, j) + seq![s[j]] + s.skip(j + 1),
        exchanged(s, i, j) == s.take(i) + seq![s[j]] + s.subrange(i + 1, j) + seq![s[i]] + s.skip(
            j + 1,
        ),
{
    assert(s =~= s.take(i) + seq![s[i]] + s.subrange(i + 1, j) + seq![s[j]] + s.skip(j + 1));
    assert(exchanged(s, i, j) =~= s.take(i) + seq![s[j]] + s.subrange(i + 1, j) + seq![s[i]]
        + s.skip(j + 1));
}

/// Order sensitivity, exactly: exchanging two members leaves the encoding
/// as it was if and only if their two encodings, with what lies between
/// them, read the same in either order. What precedes and what follows does
/// not matter.
pub proof fn lemma_members_exchange(members: Seq<MemberModel<ShapeModel>>, i: int, j: int)
    requires
        0 <= i < j < members.len(),
    ensures
        members_tokens(exchanged(members, i, j)) == members_tokens(members) <==> member_tokens(
            members[j],
        ) + members_tokens(members.subrange(i + 1, j)) + member_tokens(members[i]) == member_tokens(
            members[i],
        ) + members_tokens(members.subrange(i + 1, j)) + member_tokens(members[j]),
{
    let before = members.take(i);
    let mid = members.subrange(i + 1, j);
    let after = members.skip(j + 1);
    let (x, y) = (members[i], members[j]);
    lemma_split_pair(members, i, j);
    lemma_members_around(before, x, mid, y, after);
    lemma_members_around(before, y, mid, x, after);
    lemma_cancel_context(
        members_tokens(before),
        member_tokens(y) + members_tokens(mid) + member_tokens(x),
        member_tokens(x) + members_tokens(mid) + member_tokens(y),
        members_tokens(after),
    );
}

/// The encoding of members laid out around two of them.
proof fn lemma_members_around(
    before: Seq<MemberModel<ShapeModel>>,
    x: MemberModel<ShapeModel>,
    mid: Seq<MemberModel<ShapeModel>>,
    y: MemberModel<ShapeModel>,
    after: Seq<MemberModel<ShapeModel>>,
)
    ensures
        members_tokens(before + seq![x] + mid + seq![y] + after) == members_tokens(before) + (
        member_tokens(x) + members_tokens(mid) + member_tokens(y)) + members_tokens(after),
{
    lemma_members_tokens_add(before + seq![x] + mid + seq![y], after);
    lemma_members_tokens_add(before + seq![x] + mid, seq![y]);
    lemma_members_tokens_add(before + seq![x], mid);
    lemma_members_tokens_add(before, seq![x]);
    lemma_members_split(seq![x], 0);
    lemma_members_split(seq![y], 0);
    assert(seq![x].take(0) =~= Seq::<MemberModel<ShapeModel>>::empty());
    assert(seq![x].skip(1) =~= Seq::<MemberModel<ShapeModel>>::empty());
    assert(seq![y].take(0) =~= Seq::<MemberModel<ShapeModel>>::empty());
    assert(seq![y].skip(1) =~= Seq::<MemberModel<ShapeModel>>::empty());
    assert(members_tokens(Seq::<MemberModel<ShapeModel>>::empty()) =~= Seq::<Token>::empty());
    assert(members_tokens(before + seq![x] + mid + seq![y] + after) =~= members_tokens(before) + (
    member_tokens(x) + members_tokens(mid) + member_tokens(y)) + members_tokens(after));
}

/// Order sensitivity, exactly: exchanging two variants leaves the encoding
/// as it was if and only if their two encodings, with what lies between
/// them, read the same in either order.
pub proof fn lemma_variants_exchange(variants: Seq<VariantModel<ShapeModel>>, i: int, j: int)
    requires
        0 <= i < j < variants.len(),
    ensures
        variants_tokens(exchanged(variants, i, j)) == variants_tokens(variants) <==> variant_tokens(
            variants[j],
        ) + variants_tokens(variants.subrange(i + 1, j)) + variant_tokens(variants[i])
            == variant_tokens(variants[i]) + variants_tokens(variants.subrange(i + 1, j))
            + variant_tokens(variants[j]),
{
    let before = variants.take(i);
    let mid = variants.subrange(i + 1, j);
    let after = variants.skip(j + 1);
    let (x, y) = (variants[i], variants[j]);
    lemma_split_pair(variants, i, j);
    lemma_variants_around(before, x, mid, y, after);
    lemma_variants_around(before, y, mid, x, after);
    lemma_cancel_context(
        variants_tokens(before),
        variant_tokens(y) + variants_tokens(mid) + variant_tokens(x),
        variant_tokens(x) + variants_tokens(mid) + variant_tokens(y),
        variants_tokens(after),
    );
}

/// The encoding of variants laid out around two of them.
proof fn lemma_variants_around(
    before: Seq<VariantModel<ShapeModel>>,
    x: VariantModel<ShapeModel>,
    mid: Seq<VariantModel<ShapeModel>>,
    y: VariantModel<ShapeModel>,
    after: Seq<VariantModel<ShapeModel>>,
)
    ensures
        variants_tokens(before + seq![x] + mid + seq![y] + after) == variants_tokens(before) + (
        variant_tokens(x) + variants_tokens(mid) + variant_tokens(y)) + variants_tokens(after),
{
    lemma_variants_tokens_add(before + seq![x] + mid + seq![y], after);
    lemma_variants_tokens_add(before + seq![x] + mid, seq![y]);
    lemma_variants_tokens_add(before + seq![x], mid);
    lemma_variants_tokens_add(before, seq![x]);
    lemma_variants_split(seq![x], 0);
    lemma_variants_split(seq![y], 0);
    assert(seq![x].take(0) =~= Seq::<VariantModel<ShapeModel>>::empty());
    assert(seq![x].skip(1) =~= Seq::<VariantModel<ShapeModel>>::empty());
    assert(seq![y].take(0) =~= Seq::<VariantModel<ShapeModel>>::empty());
    assert(seq![y].skip(1) =~= Seq::<VariantModel<ShapeModel>>::empty());
    assert(variants_tokens(Seq::<VariantModel<ShapeModel>>::empty()) =~= Seq::<Token>::empty());
    assert(variants_tokens(before + seq![x] + mid + seq![y] + after) =~= variants_tokens(before)
        + (variant_tokens(x) + variants_tokens(mid) + variant_tokens(y)) + variants_tokens(after));
}

/// Order sensitivity, exactly: exchanging two nested shapes leaves the
/// encoding as it was if and only if their two encodings, with what lies
/// between them, read the same in either order.
pub proof fn lemma_shapes_exchange(shapes: Seq<ShapeModel>, i: int, j: int)
    requires
        0 <= i < j < shapes.len(),
    ensures
        shapes_tokens(exchanged(shapes, i, j)) == shapes_tokens(shapes) <==> shapes[j].tokens()
            + shapes_tokens(shapes.subrange(i + 1, j)) + shapes[i].tokens() == shapes[i].tokens()
            + shapes_tokens(shapes.subrange(i + 1, j)) + shapes[j].tokens(),
{
    let before = shapes.take(i);
    let mid = shapes.subrange(i + 1, j);
    let after = shapes.skip(j + 1);
    let (x, y) = (shapes[i], shapes[j]);
    lemma_split_pair(shapes, i, j);
    lemma_shapes_around(before, x, mid, y, after);
    lemma_shapes_around(before, y, mid, x, after);
    lemma_cancel_context(
        shapes_tokens(before),
        y.tokens() + shapes_tokens(mid) + x.tokens(),
        x.tokens() + shapes_tokens(mid) + y.tokens(),
        shapes_tokens(after),
    );
}

/// The encoding of shapes laid out around two of them.
proof fn lemma_shapes_around(
    before: Seq<ShapeModel>,
    x: ShapeModel,
    mid: Seq<ShapeModel>,
    y: ShapeModel,
    after: Seq<ShapeModel>,
)
    ensures
        shapes_tokens(before + seq![x] + mid + seq![y] + after) == shapes_tokens(before) + (
        x.tokens() + shapes_tokens(mid) + y.tokens()) + shapes_tokens(after),
{
    lemma_shapes_tokens_add(before + seq![x] + mid + seq![y], after);
    lemma_shapes_tokens_add(before + seq![x] + mid, seq![y]);
    lemma_shapes_tokens_add(before + seq![x], mid);
    lemma_shapes_tokens_add(before, seq![x]);
    lemma_shapes_split(seq![x], 0);
    lemma_shapes_split(seq![y], 0);
    assert(seq![x].take(0) =~= Seq::<ShapeModel>::empty());
    assert(seq![x].skip(1) =~= Seq::<ShapeModel>::empty());
    assert(seq![y].take(0) =~= Seq::<ShapeModel>::empty());
    assert(seq![y].skip(1) =~= Seq::<ShapeModel>::empty());
    assert(shapes_tokens(Seq::<ShapeModel>::empty()) =~= Seq::<Token>::empty());
    assert(shapes_tokens(before + seq![x] + mid + seq![y] + after) =~= shapes_tokens(before) + (
    x.tokens() + shapes_tokens(mid) + y.tokens()) + shapes_tokens(after));
}

/// Divergence is mutual.
pub proof fn lemma_diverge_symmetric(a: Seq<Token>, b: Seq<Token>)
    requires
        diverge(a, b),
    ensures
        diverge(b, a),
{
    let at = choose|at: int| 0 <= at < a.len() && at < b.len() && a[at] != b[at];
    assert(0 <= at < b.len() && at < a.len() && b[at] != a[at]);
}

/// The first position at which two different sequences of one length differ.
proof fn lemma_first_difference<A>(a: Seq<A>, b: Seq<A>) -> (at: int)
    requires
        a.len() == b.len(),
        a != b,
    ensures
        0 <= at < a.len(),
        a.take(at) == b.take(at),
        a[at] != b[at],
    decreases a.len(),
{
    if a.len() == 0 {
        assert(a =~= b);
        0
    } else if a[0] != b[0] {
        assert(a.take(0) =~= b.take(0));
        0
    } else {
        if a.skip(1) == b.skip(1) {
            assert forall|i: int| 0 <= i < a.len() implies a[i] == b[i] by {
                if i > 0 {
                    assert(a[i] == a.skip(1)[i - 1]);
                    assert(b[i] == b.skip(1)[i - 1]);
                }
            }
            assert(a =~= b);
        }
        let rest = lemma_first_difference(a.skip(1), b.skip(1));
        assert(a[rest + 1] == a.skip(1)[rest]);
        assert(b[rest + 1] == b.skip(1)[rest]);
        let front_a = a.take(rest + 1);
        let front_b = b.take(rest + 1);
        assert forall|i: int| 0 <= i < rest + 1 implies #[trigger] front_a[i] == front_b[i] by {
            if i > 0 {
                assert(a[i] == a.skip(1).take(rest)[i - 1]);
                assert(b[i] == b.skip(1).take(rest)[i - 1]);
            }
        }
        assert(front_a =~= front_b);
        rest + 1
    }
}

/// Whether every element of `listed` is one of `of`.
pub open spec fn drawn_from<A>(listed: Seq<A>, of: Seq<A>) -> bool {
    forall|k: int| 0 <= k < listed.len() ==> of.contains(#[trigger] listed[k])
}

/// Order sensitivity, for any reordering: members whose encodings diverge
/// two by two, listed in another order, encode differently.
pub proof fn lemma_members_reordered(
    members: Seq<MemberModel<ShapeModel>>,
    reordered: Seq<MemberModel<ShapeModel>>,
)
    requires
        reordered.len() == members.len(),
        reordered != members,
        drawn_from(reordered, members),
        forall|i: int, j: int|
            0 <= i < j < members.len() ==> diverge(
                #[trigger] member_tokens(members[i]),
                #[trigger] member_tokens(members[j]),
            ),
    ensures
        members_tokens(reordered) != members_tokens(members),
{
    let at = lemma_first_difference(members, reordered);
    assert(members.contains(reordered[at]));
    let from = choose|from: int| 0 <= from < members.len() && members[from] == reordered[at];
    if from < at {
        lemma_diverge_symmetric(member_tokens(members[from]), member_tokens(members[at]));
    }
    lemma_members_differ_at(members, reordered, at);
}

/// Order sensitivity, for any reordering: variants whose encodings diverge
/// two by two, listed in another order, encode differently.
pub proof fn lemma_variants_reordered(
    variants: Seq<VariantModel<ShapeModel>>,
    reordered: Seq<VariantModel<ShapeModel>>,
)
    requires
        reordered.len() == variants.len(),
        reordered != variants,
        drawn_from(reordered, variants),
        forall|i: int, j: int|
            0 <= i < j < variants.len() ==> diverge(
                #[trigger] variant_tokens(variants[i]),
                #[trigger] variant_tokens(variants[j]),
            ),
    ensures
        variants_tokens(reordered) != variants_tokens(variants),
{
    let at = lemma_first_difference(variants, reordered);
    assert(variants.contains(reordered[at]));
    let from = choose|from: int| 0 <= from < variants.len() && variants[from] == reordered[at];
    if from < at {
        lemma_diverge_symmetric(variant_tokens(variants[from]), variant_tokens(variants[at]));
    }
    lemma_variants_differ_at(variants, reordered, at);
}

/// Order sensitivity, for any reordering: nested shapes whose encodings
/// diverge two by two, listed in another order, encode differently.
pub proof fn lemma_shapes_reordered(shapes: Seq<ShapeModel>, reordered: Seq<ShapeModel>)
    requires
        reordered.len() == shapes.len(),
        reordered != shapes,
        drawn_from(reordered, shapes),
        forall|i: int, j: int|
            0 <= i < j < shapes.len() ==> diverge(
                #[trigger] shapes[i].tokens(),
                #[trigger] shapes[j].tokens(),
            ),
    ensures
        shapes_tokens(reordered) != shapes_tokens(shapes),
{
    let at = lemma_first_difference(shapes, reordered);
    assert(shapes.contains(reordered[at]));
    let from = choose|from: int| 0 <= from < shapes.len() && shapes[from] == reordered[at];
    if from < at {
        lemma_diverge_symmetric(shapes[from].tokens(), shapes[at].tokens());
    }
    lemma_shapes_differ_at(shapes, reordered, at);
}

/// Order sensitivity of an enum, for any reordering: an enum whose variants
/// have different canonical names two by two, with the same variants listed
/// in another order, encodes differently and so is written as other blocks.
pub proof fn lemma_enum_reordered(
    name: Seq<char>,
    variants: Seq<VariantModel<ShapeModel>>,
    reordered: Seq<VariantModel<ShapeModel>>,
)
    requires
        reordered.len() == variants.len(),
        reordered != variants,
        drawn_from(reordered, variants),
        forall|i: int, j: int|
            0 <= i < j < variants.len() ==> (#[trigger] variants[i]).name != (
            #[trigger] variants[j]).name,
    ensures
        composite_tokens(CompositeModel::Enum { name, variants: reordered }) != composite_tokens(
            CompositeModel::Enum { name, variants },
        ),
        blocks(composite_tokens(CompositeModel::Enum { name, variants: reordered })) != blocks(
            composite_tokens(CompositeModel::Enum { name, variants }),
        ),
{
    assert forall|i: int, j: int| 0 <= i < j < variants.len() implies diverge(
        #[trigger] variant_tokens(variants[i]),
        #[trigger] variant_tokens(variants[j]),
    ) by {
        lemma_variant_names_diverge(variants[i], variants[j]);
    }
    lemma_variants_reordered(variants, reordered);
    assert(composite_tokens(CompositeModel::Enum { name, variants }).skip(2) =~= variants_tokens(
        variants,
    ));
    assert(composite_tokens(CompositeModel::Enum { name, variants: reordered }).skip(2)
        =~= variants_tokens(reordered));
    lemma_boundary_safety(
        composite_tokens(CompositeModel::Enum { name, variants: reordered }),
        composite_tokens(CompositeModel::Enum { name, variants }),
    );
}

/// Order sensitivity of a struct, for any reordering: a struct whose fields
/// have different canonical names two by two, with the same fields listed
/// in another order, encodes differently and so is written as other blocks.
pub proof fn lemma_struct_reordered(
    name: Seq<char>,
    fields: Seq<MemberModel<ShapeModel>>,
    reordered: Seq<MemberModel<ShapeModel>>,
)
    requires
        reordered.len() == fields.len(),
        reordered != fields,
        drawn_from(reordered, fields),
        forall|i: int, j: int|
            0 <= i < j < fields.len() ==> (#[trigger] fields[i]).name != (
            #[trigger] fields[j]).name,
    ensures
        composite_tokens(CompositeModel::Struct { name, fields: reordered }) != composite_tokens(
            CompositeModel::Struct { name, fields },
        ),
        blocks(composite_tokens(CompositeModel::Struct { name, fields: reordered })) != blocks(
            composite_tokens(CompositeModel::Struct { name, fields }),
        ),
{
    assert forall|i: int, j: int| 0 <= i < j < fields.len() implies diverge(
        #[trigger] member_tokens(fields[i]),
        #[trigger] member_tokens(fields[j]),
    ) by {
        lemma_member_names_diverge(fields[i], fields[j]);
    }
    lemma_members_reordered(fields, reordered);
    assert(composite_tokens(CompositeModel::Struct { name, fields }).skip(2) =~= members_tokens(
        fields,
    ));
    assert(composite_tokens(CompositeModel::Struct { name, fields: reordered }).skip(2)
        =~= members_tokens(reordered));
    lemma_boundary_safety(
        composite_tokens(CompositeModel::Struct { name, fields: reordered }),
        composite_tokens(CompositeModel::Struct { name, fields }),
    );
}

/// Order sensitivity of a tuple, for any reordering: a tuple whose elements
/// diverge two by two, with the same elements listed in another order,
/// encodes differently and so is written as other blocks.
pub proof fn lemma_tuple_reordered(elems: Seq<ShapeModel>, reordered: Seq<ShapeModel>)
    requires
        reordered.len() == elems.len(),
        reordered != elems,
        drawn_from(reordered, elems),
        forall|i: int, j: int|
            0 <= i < j < elems.len() ==> diverge(
                #[trigger] elems[i].tokens(),
                #[trigger] elems[j].tokens(),
            ),
    ensures
        ShapeModel::container(TUPLE@, reordered).tokens() != ShapeModel::container(
            TUPLE@,
            elems,
        ).tokens(),
        blocks(ShapeModel::container(TUPLE@, reordered).tokens()) != blocks(
            ShapeModel::container(TUPLE@, elems).tokens(),
        ),
{
    lemma_shapes_reordered(elems, reordered);
    assert(ShapeModel::container(TUPLE@, elems).tokens().skip(2) =~= shapes_tokens(elems));
    assert(ShapeModel::container(TUPLE@, reordered).tokens().skip(2) =~= shapes_tokens(reordered));
    lemma_boundary_safety(
        ShapeModel::container(TUPLE@, reordered).tokens(),
        ShapeModel::container(TUPLE@, elems).tokens(),
    );
}

/// Order sensitivity of a struct: exchanging two fields with different
/// canonical names changes its encoding.
pub proof fn lemma_struct_order(
    name: Seq<char>,
    fields: Seq<MemberModel<ShapeModel>>,
    i: int,
    j: int,
)
    requires
        0 <= i < j < fields.len(),
        fields[i].name != fields[j].name,
    ensures
        composite_tokens(CompositeModel::Struct { name, fields: exchanged(fields, i, j) })
            != composite_tokens(CompositeModel::Struct { name, fields }),
{
    lemma_member_names_diverge(fields[i], fields[j]);
    lemma_members_order(fields, i, j);
    let other = exchanged(fields, i, j);
    assert(composite_tokens(CompositeModel::Struct { name, fields }).skip(2) =~= members_tokens(
        fields,
    ));
    assert(composite_tokens(CompositeModel::Struct { name, fields: other }).skip(2)
        =~= members_tokens(other));
}

/// Order sensitivity of an enum: exchanging two variants with different
/// canonical names changes its encoding.
pub proof fn lemma_enum_order(
    name: Seq<char>,
    variants: Seq<VariantModel<ShapeModel>>,
    i: int,
    j: int,
)
    requires
        0 <= i < j < variants.len(),
        variants[i].name != variants[j].name,
    ensures
        composite_tokens(CompositeModel::Enum { name, variants: exchanged(variants, i, j) })
            != composite_tokens(CompositeModel::Enum { name, variants }),
{
    lemma_variant_names_diverge(variants[i], variants[j]);
    lemma_variants_order(variants, i, j);
    let other = exchanged(variants, i, j);
    assert(composite_tokens(CompositeModel::Enum { name, variants }).skip(2) =~= variants_tokens(
        variants,
    ));
    assert(composite_tokens(CompositeModel::Enum { name, variants: other }).skip(2)
        =~= variants_tokens(other));
}

/// Order sensitivity of a tuple: exchanging two elements whose encodings
/// diverge changes its encoding.
pub proof fn lemma_tuple_order(elems: Seq<ShapeModel>, i: int, j: int)
    requires
        0 <= i < j < elems.len(),
        diverge(elems[i].tokens(), elems[j].tokens()),
    ensures
        ShapeModel::container(TUPLE@, exchanged(elems, i, j)).tokens() != ShapeModel::container(
            TUPLE@,
            elems,
        ).tokens(),
{
    lemma_shapes_order(elems, i, j);
    let other = exchanged(elems, i, j);
    assert(ShapeModel::container(TUPLE@, elems).tokens().skip(2) =~= shapes_tokens(elems));
    assert(ShapeModel::container(TUPLE@, other).tokens().skip(2) =~= shapes_tokens(other));
}

/// Namespace separation: a primitive, a standard container, a struct and
/// an enum carry four different tags, so two shapes of different namespaces
/// encode differently even where they share a name.
pub proof fn lemma_namespace_separation(a: ShapeModel, b: ShapeModel)
    requires
        a.namespace() != b.namespace(),
    ensures
        a.tag() != b.tag(),
        a.tokens() != b.tokens(),
{
    lemma_tags_distinct();
    lemma_shape_heads_diverge(a, b);
}

/// The scalar kinds have 24 different names: no two widths and no two
/// signednesses collide.
pub proof fn lemma_primitive_names_distinct(a: Primitive, b: Primitive)
    requires
        a != b,
    ensures
        a.spec_name() != b.spec_name(),
        ShapeModel::primitive(a).tokens() != ShapeModel::primitive(b).tokens(),
{
    reveal_strlit("u8");
    reveal_strlit("u16");
    reveal_strlit("u32");
    reveal_strlit("u64");
    reveal_strlit("u128");
    reveal_strlit("i8");
    reveal_strlit("i16");
    reveal_strlit("i32");
    reveal_strlit("i64");
    reveal_strlit("i128");
    reveal_strlit("f32");
    reveal_strlit("f64");
    reveal_strlit("bool");
    reveal_strlit("char");
    reveal_strlit("NonZeroU8");
    reveal_strlit("NonZeroU16");
    reveal_strlit("NonZeroU32");
    reveal_strlit("NonZeroU64");
    reveal_strlit("NonZeroU128");
    reveal_strlit("NonZeroI8");
    reveal_strlit("NonZeroI16");
    reveal_strlit("NonZeroI32");
    reveal_strlit("NonZeroI64");
    reveal_strlit("NonZeroI128");
    assert("u8"@ =~= seq!['u', '8']);
    assert("u16"@ =~= seq!['u', '1', '6']);
    assert("u32"@ =~= seq!['u', '3', '2']);
    assert("u64"@ =~= seq!['u', '6', '4']);
    assert("u128"@ =~= seq!['u', '1', '2', '8']);
    assert("i8"@ =~= seq!['i', '8']);
    assert("i16"@ =~= seq!['i', '1', '6']);
    assert("i32"@ =~= seq!['i', '3', '2']);
    assert("i64"@ =~= seq!['i', '6', '4']);
    assert("i128"@ =~= seq!['i', '1', '2', '8']);
    assert("f32"@ =~= seq!['f', '3', '2']);
    assert("f64"@ =~= seq!['f', '6', '4']);
    assert("bool"@ =~= seq!['b', 'o', 'o', 'l']);
    assert("char"@ =~= seq!['c', 'h', 'a', 'r']);
    assert("NonZeroU8"@ =~= seq!['N', 'o', 'n', 'Z', 'e', 'r', 'o', 'U', '8']);
    assert("NonZeroU16"@ =~= seq!['N', 'o', 'n', 'Z', 'e', 'r', 'o', 'U', '1', '6']);
    assert("NonZeroU32"@ =~= seq!['N', 'o', 'n', 'Z', 'e', 'r', 'o', 'U', '3', '2']);
    assert("NonZeroU64"@ =~= seq!['N', 'o', 'n', 'Z', 'e', 'r', 'o', 'U', '6', '4']);
    assert("NonZeroU128"@ =~= seq!['N', 'o', 'n', 'Z', 'e', 'r', 'o', 'U', '1', '2', '8']);
    assert("NonZeroI8"@ =~= seq!['N', 'o', 'n', 'Z', 'e', 'r', 'o', 'I', '8']);
    assert("NonZeroI16"@ =~= seq!['N', 'o', 'n', 'Z', 'e', 'r', 'o', 'I', '1', '6']);
    assert("NonZeroI32"@ =~= seq!['N', 'o', 'n', 'Z', 'e', 'r', 'o', 'I', '3', '2']);
    assert("NonZeroI64"@ =~= seq!['N', 'o', 'n', 'Z', 'e', 'r', 'o', 'I', '6', '4']);
    assert("NonZeroI128"@ =~= seq!['N', 'o', 'n', 'Z', 'e', 'r', 'o', 'I', '1', '2', '8']);
    lemma_shape_heads_diverge(ShapeModel::primitive(a), ShapeModel::primitive(b));
}

/// The names of the standard containers are eight different names.
pub proof fn lemma_container_names_distinct()
    ensures
        STRING@ != OPTION@,
        STRING@ != RESULT@,
        STRING@ != ARRAY@,
        STRING@ != VEC@,
        STRING@ != SET@,
        STRING@ != MAP@,
        STRING@ != TUPLE@,
        OPTION@ != RESULT@,
        OPTION@ != ARRAY@,
        OPTION@ != VEC@,
        OPTION@ != SET@,
        OPTION@ != MAP@,
        OPTION@ != TUPLE@,
        RESULT@ != ARRAY@,
        RESULT@ != VEC@,
        RESULT@ != SET@,
        RESULT@ != MAP@,
        RESULT@ != TUPLE@,
        ARRAY@ != VEC@,
        ARRAY@ != SET@,
        ARRAY@ != MAP@,
        ARRAY@ != TUPLE@,
        VEC@ != SET@,
        VEC@ != MAP@,
        VEC@ != TUPLE@,
        SET@ != MAP@,
        SET@ != TUPLE@,
        MAP@ != TUPLE@,
{
    reveal_strlit("String");
    reveal_strlit("Option");
    reveal_strlit("Result");
    reveal_strlit("Array");
    reveal_strlit("Vec");
    reveal_strlit("Set");
    reveal_strlit("Map");
    reveal_strlit("Tuple");
    assert(STRING@[0] == 'S' && STRING@[1] == 't' && STRING@.len() == 6);
    assert(OPTION@[0] == 'O' && OPTION@.len() == 6);
    assert(RESULT@[0] == 'R' && RESULT@.len() == 6);
    assert(ARRAY@[0] == 'A' && ARRAY@.len() == 5);
    assert(VEC@[0] == 'V' && VEC@.len() == 3);
    assert(SET@[0] == 'S' && SET@[1] == 'e' && SET@.len() == 3);
    assert(MAP@[0] == 'M' && MAP@.len() == 3);
    assert(TUPLE@[0] == 'T' && TUPLE@.len() == 5);
}

/// Container distinctness: a growable sequence and a fixed-size array
/// encode differently, whatever their elements and the array's length.
pub proof fn lemma_vec_is_not_array(elem: ShapeModel, len: usize, other: ShapeModel)
    ensures
        ShapeModel::vec(elem).tokens() != ShapeModel::array(len, other).tokens(),
{
    lemma_container_names_distinct();
    lemma_shape_heads_diverge(ShapeModel::vec(elem), ShapeModel::array(len, other));
}

/// Alias equivalence: an ordered set has the shape of a hashed set, and an
/// ordered map that of a hashed map.
pub proof fn lemma_ordered_collections_alias<T: TypeHash, U: TypeHash>()
    ensures
        <BTreeSet<T> as TypeHash>::model() == <HashSet<T> as TypeHash>::model(),
        <BTreeMap<T, U> as TypeHash>::model() == <HashMap<T, U> as TypeHash>::model(),
{
}

/// Alias equivalence: a wrapper around one value has the shape of the
/// value, and so has a tuple of one element.
pub proof fn lemma_wrappers_alias<T: TypeHash>()
    ensures
        <Box<T> as TypeHash>::model() == T::model(),
        <Rc<T> as TypeHash>::model() == T::model(),
        <Arc<T> as TypeHash>::model() == T::model(),
        <core::cell::Cell<T> as TypeHash>::model() == T::model(),
        <core::cell::RefCell<T> as TypeHash>::model() == T::model(),
        <core::mem::MaybeUninit<T> as TypeHash>::model() == T::model(),
        <core::num::Wrapping<T> as TypeHash>::model() == T::model(),
        <std::sync::Mutex<T> as TypeHash>::model() == T::model(),
        <std::sync::RwLock<T> as TypeHash>::model() == T::model(),
        <(T,) as TypeHash>::model() == T::model(),
{
}

/// Alias equivalence of digests: a type that hashes as another has the
/// other's digest under every algorithm.
pub proof fn lemma_alias_digests<T: TypeHash, U: TypeHash, H: Algorithm>()
    ensures
        digest_of::<BTreeSet<T>, H>() == digest_of::<HashSet<T>, H>(),
        digest_of::<BTreeMap<T, U>, H>() == digest_of::<HashMap<T, U>, H>(),
        digest_of::<Rc<T>, H>() == digest_of::<T, H>(),
        digest_of::<Arc<T>, H>() == digest_of::<T, H>(),
        digest_of::<Box<T>, H>() == digest_of::<T, H>(),
        digest_of::<core::sync::atomic::AtomicU32, H>() == digest_of::<u32, H>(),
{
}

/// The digest of the type `T` under the algorithm `H`: what
/// `T::type_hash_one::<H>()` returns.
pub open spec fn digest_of<T: TypeHash, H: Algorithm>() -> u64 {
    T::model().digest::<H>()
}

/// Alias equivalence: an atomic has the shape of the plain type of the
/// same width.
pub proof fn lemma_atomics_alias()
    ensures
        <core::sync::atomic::AtomicBool as TypeHash>::model() == <bool as TypeHash>::model(),
        <core::sync::atomic::AtomicI8 as TypeHash>::model() == <i8 as TypeHash>::model(),
        <core::sync::atomic::AtomicI16 as TypeHash>::model() == <i16 as TypeHash>::model(),
        <core::sync::atomic::AtomicI32 as TypeHash>::model() == <i32 as TypeHash>::model(),
        <core::sync::atomic::AtomicI64 as TypeHash>::model() == <i64 as TypeHash>::model(),
        <core::sync::atomic::AtomicU8 as TypeHash>::model() == <u8 as TypeHash>::model(),
        <core::sync::atomic::AtomicU16 as TypeHash>::model() == <u16 as TypeHash>::model(),
        <core::sync::atomic::AtomicU32 as TypeHash>::model() == <u32 as TypeHash>::model(),
        <core::sync::atomic::AtomicU64 as TypeHash>::model() == <u64 as TypeHash>::model(),
{
}

} // verus!
