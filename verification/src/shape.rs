//! Shapes as values, and the encoder that walks them.
use vstd::prelude::*;
use crate::algorithm::Algorithm;
use crate::model::{
    counts, member_tokens, members_tokens, shapes_tokens, variant_tokens, variants_tokens,
    CompositeModel, MemberModel, ShapeModel, VariantModel,
};
use crate::sink::HashSink;
use crate::token::{
    blocks, header, lemma_blocks_add, lemma_blocks_one, Token, ENUM, FIELD, PRIMITIVE, STANDARD,
    STRUCT,
};

verus! {

/// A member of a composite: its canonical name and the type it holds.
#[derive(Debug)]
pub struct Member<T> {
    pub name: String,
    pub ty: T,
}

/// A variant of an enum-like composite.
#[derive(Debug)]
pub struct Variant<T> {
    pub name: String,
    pub members: Vec<Member<T>>,
}

/// A struct-like or enum-like definition whose names are resolved.
#[derive(Debug)]
pub enum Composite<T> {
    Struct { name: String, fields: Vec<Member<T>> },
    Enum { name: String, variants: Vec<Variant<T>> },
}

/// The canonical identity of a type, built once and hashed any number of
/// times.
#[derive(Debug)]
pub enum Shape {
    Primitive { name: String },
    Standard { name: String, lens: Vec<usize>, args: Vec<Shape> },
    Composite(Composite<Shape>),
}

impl<T> View for Member<T> {
    type V = MemberModel<T>;

    open spec fn view(&self) -> MemberModel<T> {
        MemberModel { name: self.name@, ty: self.ty }
    }
}

impl<T> View for Variant<T> {
    type V = VariantModel<T>;

    open spec fn view(&self) -> VariantModel<T> {
        VariantModel { name: self.name@, members: members_view(self.members@) }
    }
}

/// The models of a sequence of members.
pub open spec fn members_view<T>(members: Seq<Member<T>>) -> Seq<MemberModel<T>> {
    Seq::new(members.len(), |i: int| members[i]@)
}

/// The models of a sequence of variants.
pub open spec fn variants_view<T>(variants: Seq<Variant<T>>) -> Seq<VariantModel<T>> {
    Seq::new(variants.len(), |i: int| variants[i]@)
}

impl<T> View for Composite<T> {
    type V = CompositeModel<T>;

    open spec fn view(&self) -> CompositeModel<T> {
        match self {
            Composite::Struct { name, fields } => CompositeModel::Struct {
                name: name@,
                fields: members_view(fields@),
            },
            Composite::Enum { name, variants } => CompositeModel::Enum {
                name: name@,
                variants: variants_view(variants@),
            },
        }
    }
}

/// The models of a sequence of shapes.
pub open spec fn shapes_model(shapes: Seq<Shape>) -> Seq<ShapeModel>
    decreases shapes, 0nat,
{
    Seq::new(
        shapes.len(),
        |i: int|
            if 0 <= i < shapes.len() {
                shapes[i]@
            } else {
                arbitrary()
            },
    )
}

/// The models of a sequence of members, each with the model of its shape.
pub open spec fn members_model(members: Seq<Member<Shape>>) -> Seq<MemberModel<ShapeModel>>
    decreases members, 0nat,
{
    Seq::new(
        members.len(),
        |i: int|
            if 0 <= i < members.len() {
                MemberModel { name: members[i].name@, ty: members[i].ty@ }
            } else {
                arbitrary()
            },
    )
}

/// The models of a sequence of variants.
pub open spec fn variants_model(variants: Seq<Variant<Shape>>) -> Seq<VariantModel<ShapeModel>>
    decreases variants, 0nat,
{
    Seq::new(
        variants.len(),
        |i: int|
            if 0 <= i < variants.len() {
                VariantModel {
                    name: variants[i].name@,
                    members: members_model(variants[i].members@),
                }
            } else {
                arbitrary()
            },
    )
}

/// The model of a composite whose members hold shapes.
pub open spec fn composite_model(composite: Composite<Shape>) -> CompositeModel<ShapeModel>
    decreases composite, 1nat,
{
    match composite {
        Composite::Struct { name, fields } => CompositeModel::Struct {
            name: name@,
            fields: members_model(fields@),
        },
        Composite::Enum { name, variants } => CompositeModel::Enum {
            name: name@,
            variants: variants_model(variants@),
        },
    }
}

/// A member that holds a shape, with the model of that shape in its place.
pub open spec fn deep_member(member: MemberModel<Shape>) -> MemberModel<ShapeModel> {
    MemberModel { name: member.name, ty: member.ty@ }
}

/// Members that hold shapes, with the models of the shapes in their place.
pub open spec fn deep_members(members: Seq<MemberModel<Shape>>) -> Seq<MemberModel<ShapeModel>> {
    Seq::new(members.len(), |i: int| deep_member(members[i]))
}

/// Variants whose members hold shapes, with the models of the shapes in
/// their place.
pub open spec fn deep_variants(variants: Seq<VariantModel<Shape>>) -> Seq<
    VariantModel<ShapeModel>,
> {
    Seq::new(
        variants.len(),
        |i: int|
            VariantModel { name: variants[i].name, members: deep_members(variants[i].members) },
    )
}

/// A composite whose members hold shapes, with the models of the shapes in
/// their place.
pub open spec fn deep_composite(composite: CompositeModel<Shape>) -> CompositeModel<ShapeModel> {
    match composite {
        CompositeModel::Struct { name, fields } => CompositeModel::Struct {
            name,
            fields: deep_members(fields),
        },
        CompositeModel::Enum { name, variants } => CompositeModel::Enum {
            name,
            variants: deep_variants(variants),
        },
    }
}

impl View for Shape {
    type V = ShapeModel;

    open spec fn view(&self) -> ShapeModel
        decreases self, 2nat,
    {
        match self {
            Shape::Primitive { name } => ShapeModel::Primitive { name: name@ },
            Shape::Standard { name, lens, args } => ShapeModel::Standard {
                name: name@,
                lens: lens@,
                args: shapes_model(args@),
            },
            Shape::Composite(composite) => ShapeModel::Composite(composite_model(*composite)),
        }
    }
}

/// Writes the integer parameters of a standard container, in order.
fn write_counts<H: Algorithm>(sink: &mut HashSink<H>, lens: &Vec<usize>)
    ensures
        final(sink)@ == old(sink)@ + blocks(counts(lens@)),
{
    let mut i: usize = 0;
    assert(blocks(counts(lens@.take(0))) =~= Seq::<Seq<u8>>::empty());
    while i < lens.len()
        invariant
            i <= lens.len(),
            sink@ == old(sink)@ + blocks(counts(lens@.take(i as int))),
        decreases lens.len() - i,
    {
        sink.write_count(lens[i]);
        proof {
            let done = counts(lens@.take(i as int));
            assert(counts(lens@.take(i + 1)) =~= done.push(Token::Count(lens[i as int])));
            assert(done.push(Token::Count(lens[i as int])).drop_last() =~= done);
            assert(sink@ =~= old(sink)@ + blocks(counts(lens@.take(i + 1))));
        }
        i += 1;
    }
    assert(lens@.take(i as int) =~= lens@);
}

/// Writes a sequence of shapes, each in full, in order.
fn write_shapes<H: Algorithm>(sink: &mut HashSink<H>, shapes: &Vec<Shape>)
    ensures
        final(sink)@ == old(sink)@ + blocks(shapes_tokens(shapes_model(shapes@))),
    decreases shapes, 1nat,
{
    let ghost models = shapes_model(shapes@);
    let mut i: usize = 0;
    assert(blocks(shapes_tokens(models.take(0))) =~= Seq::<Seq<u8>>::empty());
    while i < shapes.len()
        invariant
            i <= shapes.len(),
            models == shapes_model(shapes@),
            sink@ == old(sink)@ + blocks(shapes_tokens(models.take(i as int))),
        decreases shapes.len() - i,
    {
        shapes[i].type_hash(sink);
        proof {
            assert(models.take(i + 1).drop_last() =~= models.take(i as int));
            assert(models.take(i + 1).last() == shapes[i as int]@);
            lemma_blocks_add(shapes_tokens(models.take(i as int)), shapes[i as int]@.tokens());
            assert(sink@ =~= old(sink)@ + blocks(shapes_tokens(models.take(i + 1))));
        }
        i += 1;
    }
    assert(models.take(i as int) =~= models);
}

/// Writes a sequence of members in declaration order: for each the field
/// tag, its name and the shape it holds.
fn write_members<H: Algorithm>(sink: &mut HashSink<H>, members: &Vec<Member<Shape>>)
    ensures
        final(sink)@ == old(sink)@ + blocks(members_tokens(members_model(members@))),
    decreases members, 1nat,
{
    let ghost models = members_model(members@);
    let mut i: usize = 0;
    assert(blocks(members_tokens(models.take(0))) =~= Seq::<Seq<u8>>::empty());
    while i < members.len()
        invariant
            i <= members.len(),
            models == members_model(members@),
            sink@ == old(sink)@ + blocks(members_tokens(models.take(i as int))),
        decreases members.len() - i,
    {
        sink.write_header(FIELD, members[i].name.as_str());
        members[i].ty.type_hash(sink);
        proof {
            let one = models[i as int];
            assert(models.take(i + 1).drop_last() =~= models.take(i as int));
            assert(models.take(i + 1).last() == one);
            lemma_blocks_add(header(FIELD@, one.name), one.ty.tokens());
            lemma_blocks_add(members_tokens(models.take(i as int)), member_tokens(one));
            assert(sink@ =~= old(sink)@ + blocks(members_tokens(models.take(i + 1))));
        }
        i += 1;
    }
    assert(models.take(i as int) =~= models);
}

/// Writes a sequence of variants in declaration order: for each its name,
/// then its members.
fn write_variants<H: Algorithm>(sink: &mut HashSink<H>, variants: &Vec<Variant<Shape>>)
    ensures
        final(sink)@ == old(sink)@ + blocks(variants_tokens(variants_model(variants@))),
    decreases variants, 3nat,
{
    let ghost models = variants_model(variants@);
    let mut i: usize = 0;
    assert(blocks(variants_tokens(models.take(0))) =~= Seq::<Seq<u8>>::empty());
    while i < variants.len()
        invariant
            i <= variants.len(),
            models == variants_model(variants@),
            sink@ == old(sink)@ + blocks(variants_tokens(models.take(i as int))),
        decreases variants.len() - i,
    {
        sink.write_name(variants[i].name.as_str());
        write_members(sink, &variants[i].members);
        proof {
            let one = models[i as int];
            assert(models.take(i + 1).drop_last() =~= models.take(i as int));
            assert(models.take(i + 1).last() == one);
            lemma_blocks_one(Token::Name(one.name));
            lemma_blocks_add(seq![Token::Name(one.name)], members_tokens(one.members));
            lemma_blocks_add(variants_tokens(models.take(i as int)), variant_tokens(one));
            assert(sink@ =~= old(sink)@ + blocks(variants_tokens(models.take(i + 1))));
        }
        i += 1;
    }
    assert(models.take(i as int) =~= models);
}

/// The model of a composite is the model of its view, shape by shape.
pub proof fn lemma_composite_model(composite: Composite<Shape>)
    ensures
        composite_model(composite) == deep_composite(composite@),
{
    match composite {
        Composite::Struct { name, fields } => {
            assert(members_model(fields@) =~= deep_members(members_view(fields@)));
        },
        Composite::Enum { name, variants } => {
            assert forall|i: int| 0 <= i < variants@.len() implies variants_model(variants@)[i]
                == deep_variants(variants_view(variants@))[i] by {
                assert(members_model(variants@[i].members@) =~= deep_members(
                    members_view(variants@[i].members@),
                ));
            }
            assert(variants_model(variants@) =~= deep_variants(variants_view(variants@)));
        },
    }
}

impl Shape {
    /// The shape of a user-defined struct or enum whose members hold shapes.
    pub fn composite(composite: Composite<Shape>) -> (shape: Shape)
        ensures
            shape@ == ShapeModel::Composite(deep_composite(composite@)),
    {
        proof {
            lemma_composite_model(composite);
        }
        Shape::Composite(composite)
    }

    /// Writes the canonical encoding of the shape into the sink: the tag and
    /// the name, then what is nested in it, in declaration order. The
    /// algorithm consumes the blocks of exactly those tokens.
    pub fn type_hash<H: Algorithm>(&self, sink: &mut HashSink<H>)
        ensures
            final(sink)@ == old(sink)@ + blocks(self@.tokens()),
        decreases self, 0nat,
    {
        match self {
            Shape::Primitive { name } => {
                sink.write_header(PRIMITIVE, name.as_str());
            },
            Shape::Standard { name, lens, args } => {
                sink.write_header(STANDARD, name.as_str());
                write_counts(sink, lens);
                write_shapes(sink, args);
                proof {
                    let head = header(STANDARD@, name@);
                    let models = shapes_model(args@);
                    lemma_blocks_add(head, counts(lens@));
                    lemma_blocks_add(head + counts(lens@), shapes_tokens(models));
                    assert(sink@ =~= old(sink)@ + blocks(self@.tokens()));
                }
            },
            Shape::Composite(Composite::Struct { name, fields }) => {
                sink.write_header(STRUCT, name.as_str());
                write_members(sink, fields);
                proof {
                    lemma_blocks_add(
                        header(STRUCT@, name@),
                        members_tokens(members_model(fields@)),
                    );
                    assert(sink@ =~= old(sink)@ + blocks(self@.tokens()));
                }
            },
            Shape::Composite(Composite::Enum { name, variants }) => {
                sink.write_header(ENUM, name.as_str());
                write_variants(sink, variants);
                proof {
                    lemma_blocks_add(
                        header(ENUM@, name@),
                        variants_tokens(variants_model(variants@)),
                    );
                    assert(sink@ =~= old(sink)@ + blocks(self@.tokens()));
                }
            },
        }
    }
}

} // verus!
