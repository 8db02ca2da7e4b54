//! The front end: from a definition as it was declared, with its attributes,
//! to a composite whose canonical names are resolved.
use vstd::prelude::*;
use crate::model::{CompositeModel, MemberModel, VariantModel};
use crate::shape::{members_view, variants_view, Composite, Member, Variant};
use crate::token::ANONYMOUS;

verus! {

/// The path of the attribute that overrides a name.
pub const ATTRIBUTE: &'static str = "type_hash";

/// The key under which the attribute gives the name.
pub const KEY: &'static str = "name";

/// Why a definition has no shape.
#[derive(Clone, Copy, Debug, PartialEq, Eq, Structural)]
pub enum DeriveError {
    /// The definition is a union.
    UnsupportedUnion,
    /// One item carries the attribute more than once.
    RepeatedAttribute,
    /// The name is given by something other than a string literal.
    NameNotLiteral,
    /// The attribute gives a value under another key than `name`.
    UnexpectedKey,
    /// The attribute's arguments are not of the form `key = value`.
    InvalidAttribute,
}

/// An attribute as it stands on an item: its path, and what stands between
/// its parentheses if it has any.
#[derive(Debug)]
pub struct Attribute {
    pub path: String,
    pub args: Option<Arguments>,
}

/// A declared field: a named one has an identifier, a positional one none.
#[derive(Debug)]
pub struct FieldDef<T> {
    pub attrs: Vec<Attribute>,
    pub ident: Option<String>,
    pub ty: T,
}

/// A declared variant of an enum.
#[derive(Debug)]
pub struct VariantDef<T> {
    pub attrs: Vec<Attribute>,
    pub ident: String,
    pub fields: Vec<FieldDef<T>>,
}

/// The body of a declared item.
#[derive(Debug)]
pub enum DataDef<T> {
    Struct(Vec<FieldDef<T>>),
    Enum(Vec<VariantDef<T>>),
    Union,
}

/// A declared item.
#[derive(Debug)]
pub struct ItemDef<T> {
    pub attrs: Vec<Attribute>,
    pub ident: String,
    pub data: DataDef<T>,
}

/// What the arguments of an attribute were parsed to.
#[derive(Debug)]
pub enum Arguments {
    /// `path = value`: whether the path is the expected key, and the value if
    /// it is a string literal.
    NameValue { keyed: bool, value: Option<String> },
    /// Anything else, and what does not parse.
    Other,
}

/// The model of [`Arguments`].
pub enum ArgumentsModel {
    NameValue { keyed: bool, value: Option<Seq<char>> },
    Other,
}

impl View for Arguments {
    type V = ArgumentsModel;

    open spec fn view(&self) -> ArgumentsModel {
        match self {
            Arguments::NameValue { keyed, value } => ArgumentsModel::NameValue {
                keyed: *keyed,
                value: match value {
                    Some(text) => Some(text@),
                    None => None,
                },
            },
            Arguments::Other => ArgumentsModel::Other,
        }
    }
}

/// Parses the arguments of an attribute with `syn::parse_str::<syn::Meta>`.
/// A `path = value` pair is reported with the answer of `Path::is_ident` for
/// the key and, where the value is a string literal, what `LitStr::value`
/// gives for it. Nothing is claimed of the outcome: it is the parser's, and
/// may differ from one call to the next. The parser descends into nested
/// expressions, so arguments nested very deeply can exhaust the stack.
#[verifier::external_body]
fn parse_arguments(text: &str, key: &str) -> Arguments {
    match syn::parse_str::<syn::Meta>(text) {
        Ok(syn::Meta::NameValue(pair)) => Arguments::NameValue {
            keyed: pair.path.is_ident(key),
            value: match pair.value {
                syn::Expr::Lit(syn::ExprLit { lit: syn::Lit::Str(literal), .. }) => Some(
                    literal.value(),
                ),
                _ => None,
            },
        },
        _ => Arguments::Other,
    }
}

impl Attribute {
    /// Reads an attribute from its path and from the text between its
    /// parentheses, if it has any.
    ///
    /// The arguments of a `type_hash` attribute are handed to the parser, and
    /// the attribute holds what the parser gave. The arguments of any other
    /// attribute are not read and stand as [`Arguments::Other`].
    pub fn read(path: &str, text: Option<&str>) -> (attribute: Attribute)
        ensures
            attribute.path@ == path@,
            attribute.args is Some <==> text is Some,
            path@ != ATTRIBUTE@ && text is Some ==> attribute.args.unwrap()@
                == ArgumentsModel::Other,
    {
        let args = match text {
            None => None,
            Some(text) => {
                if path.to_owned() == ATTRIBUTE.to_owned() {
                    Some(parse_arguments(text, KEY))
                } else {
                    Some(Arguments::Other)
                }
            },
        };
        Attribute { path: path.to_owned(), args }
    }
}

/// The name that parsed arguments give, or why they give none.
pub open spec fn name_of(arguments: ArgumentsModel) -> Result<Seq<char>, DeriveError> {
    match arguments {
        ArgumentsModel::NameValue { keyed: true, value: Some(name) } => Ok(name),
        ArgumentsModel::NameValue { keyed: true, value: None } => Err(DeriveError::NameNotLiteral),
        ArgumentsModel::NameValue { keyed: false, .. } => Err(DeriveError::UnexpectedKey),
        ArgumentsModel::Other => Err(DeriveError::InvalidAttribute),
    }
}

/// Whether an attribute is the one that overrides a name.
pub open spec fn is_override(attr: Attribute) -> bool {
    attr.path@ == ATTRIBUTE@
}

/// The overriding attributes among `attrs`, in order.
pub open spec fn overrides(attrs: Seq<Attribute>) -> Seq<Attribute> {
    attrs.filter(|attr: Attribute| is_override(attr))
}

/// The name that one overriding attribute gives.
pub open spec fn override_of(attr: Attribute) -> Result<Seq<char>, DeriveError> {
    match attr.args {
        None => Err(DeriveError::InvalidAttribute),
        Some(arguments) => name_of(arguments@),
    }
}

/// The override that the attributes of one item give: none, one name, or an
/// error. More than one overriding attribute is an error whatever they say.
pub open spec fn resolve_override(attrs: Seq<Attribute>) -> Result<Option<Seq<char>>, DeriveError> {
    let found = overrides(attrs);
    if found.len() > 1 {
        Err(DeriveError::RepeatedAttribute)
    } else if found.len() == 0 {
        Ok(None)
    } else {
        match override_of(found[0]) {
            Ok(name) => Ok(Some(name)),
            Err(error) => Err(error),
        }
    }
}

/// The canonical name of an item: its override if it has one, else the
/// name it was declared under.
pub open spec fn canonical(attrs: Seq<Attribute>, declared: Seq<char>) -> Result<
    Seq<char>,
    DeriveError,
> {
    match resolve_override(attrs) {
        Ok(Some(name)) => Ok(name),
        Ok(None) => Ok(declared),
        Err(error) => Err(error),
    }
}

/// The name a field was declared under: its identifier, or the anonymous
/// marker for a positional field.
pub open spec fn declared_name<T>(field: FieldDef<T>) -> Seq<char> {
    match field.ident {
        Some(ident) => ident@,
        None => ANONYMOUS@,
    }
}

/// The member that a field becomes.
pub open spec fn member_of<T>(field: FieldDef<T>) -> Result<MemberModel<T>, DeriveError> {
    match canonical(field.attrs@, declared_name(field)) {
        Ok(name) => Ok(MemberModel { name, ty: field.ty }),
        Err(error) => Err(error),
    }
}

/// The members that fields become, in declaration order, or the error of
/// the first field that has one.
pub open spec fn members_of<T>(fields: Seq<FieldDef<T>>) -> Result<
    Seq<MemberModel<T>>,
    DeriveError,
>
    decreases fields.len(),
{
    if fields.len() == 0 {
        Ok(Seq::empty())
    } else {
        match members_of(fields.drop_last()) {
            Err(error) => Err(error),
            Ok(members) => match member_of(fields.last()) {
                Err(error) => Err(error),
                Ok(member) => Ok(members.push(member)),
            },
        }
    }
}

/// The variant that a declared variant becomes: its own name is resolved
/// before its fields.
pub open spec fn variant_of<T>(variant: VariantDef<T>) -> Result<VariantModel<T>, DeriveError> {
    match canonical(variant.attrs@, variant.ident@) {
        Err(error) => Err(error),
        Ok(name) => match members_of(variant.fields@) {
            Err(error) => Err(error),
            Ok(members) => Ok(VariantModel { name, members }),
        },
    }
}

/// The variants that declared variants become, in declaration order, or the
/// error of the first variant that has one.
pub open spec fn variants_of<T>(variants: Seq<VariantDef<T>>) -> Result<
    Seq<VariantModel<T>>,
    DeriveError,
>
    decreases variants.len(),
{
    if variants.len() == 0 {
        Ok(Seq::empty())
    } else {
        match variants_of(variants.drop_last()) {
            Err(error) => Err(error),
            Ok(resolved) => match variant_of(variants.last()) {
                Err(error) => Err(error),
                Ok(variant) => Ok(resolved.push(variant)),
            },
        }
    }
}

/// The struct-like composite of an item with these attributes, identifier
/// and fields.
pub open spec fn struct_of<T>(attrs: Seq<Attribute>, ident: Seq<char>, fields: Seq<FieldDef<T>>)
    -> Result<CompositeModel<T>, DeriveError> {
    match canonical(attrs, ident) {
        Err(error) => Err(error),
        Ok(name) => match members_of(fields) {
            Err(error) => Err(error),
            Ok(fields) => Ok(CompositeModel::Struct { name, fields }),
        },
    }
}

/// The enum-like composite of an item with these attributes, identifier and
/// variants.
pub open spec fn enum_of<T>(
    attrs: Seq<Attribute>,
    ident: Seq<char>,
    variants: Seq<VariantDef<T>>,
) -> Result<CompositeModel<T>, DeriveError> {
    match canonical(attrs, ident) {
        Err(error) => Err(error),
        Ok(name) => match variants_of(variants) {
            Err(error) => Err(error),
            Ok(variants) => Ok(CompositeModel::Enum { name, variants }),
        },
    }
}

/// The composite of a declared item. A union has none.
pub open spec fn composite_of<T>(input: ItemDef<T>) -> Result<CompositeModel<T>, DeriveError> {
    match input.data {
        DataDef::Struct(fields) => struct_of(input.attrs@, input.ident@, fields@),
        DataDef::Enum(variants) => enum_of(input.attrs@, input.ident@, variants@),
        DataDef::Union => Err(DeriveError::UnsupportedUnion),
    }
}

/// The model of a resolved override.
pub open spec fn override_view(result: Result<Option<String>, DeriveError>) -> Result<
    Option<Seq<char>>,
    DeriveError,
> {
    match result {
        Ok(Some(name)) => Ok(Some(name@)),
        Ok(None) => Ok(None),
        Err(error) => Err(error),
    }
}

/// The model of a resolved name.
pub open spec fn name_view(result: Result<String, DeriveError>) -> Result<Seq<char>, DeriveError> {
    match result {
        Ok(name) => Ok(name@),
        Err(error) => Err(error),
    }
}

/// The model of a result that holds a value with a view.
pub open spec fn result_view<V: View>(result: Result<V, DeriveError>) -> Result<V::V, DeriveError> {
    match result {
        Ok(value) => Ok(value@),
        Err(error) => Err(error),
    }
}

impl DeriveError {
    /// The text that reports the error to the author of the definition.
    pub open spec fn spec_message(self) -> Seq<char> {
        match self {
            DeriveError::UnsupportedUnion => "Unions are not supported"@,
            DeriveError::RepeatedAttribute => {
                "type_hash attribute can only be used once per field"@
            },
            DeriveError::NameNotLiteral => "name attribute must be a string literal"@,
            DeriveError::UnexpectedKey => "invalid type_hash attribute: expected `name = \"...\"`"@,
            DeriveError::InvalidAttribute => "invalid type_hash attribute"@,
        }
    }

    /// The text that reports the error to the author of the definition.
    pub fn message(&self) -> (text: &'static str)
        ensures
            text@ == self.spec_message(),
    {
        match self {
            DeriveError::UnsupportedUnion => "Unions are not supported",
            DeriveError::RepeatedAttribute => "type_hash attribute can only be used once per field",
            DeriveError::NameNotLiteral => "name attribute must be a string literal",
            DeriveError::UnexpectedKey => "invalid type_hash attribute: expected `name = \"...\"`",
            DeriveError::InvalidAttribute => "invalid type_hash attribute",
        }
    }
}

/// The name that parsed arguments give: the value of `name = "..."`. A value
/// that is no string literal, another key, and any other form are errors.
pub fn override_name(arguments: &Arguments) -> (result: Result<String, DeriveError>)
    ensures
        name_view(result) == name_of(arguments@),
{
    match arguments {
        Arguments::NameValue { keyed, value } => {
            if *keyed {
                match value {
                    Some(name) => Ok(name.clone()),
                    None => Err(DeriveError::NameNotLiteral),
                }
            } else {
                Err(DeriveError::UnexpectedKey)
            }
        },
        Arguments::Other => Err(DeriveError::InvalidAttribute),
    }
}

/// The overriding attributes of a sequence that ends in `last` are those
/// of what precedes it, and `last` if it overrides.
pub proof fn lemma_overrides_push(attrs: Seq<Attribute>, last: Attribute)
    ensures
        overrides(attrs.push(last)) == if is_override(last) {
            overrides(attrs).push(last)
        } else {
            overrides(attrs)
        },
{
    reveal(Seq::filter);
    assert(attrs.push(last).drop_last() =~= attrs);
}

/// No attributes, no override.
pub proof fn lemma_overrides_empty()
    ensures
        overrides(Seq::empty()) == Seq::<Attribute>::empty(),
{
    reveal(Seq::filter);
}

/// Whether an attribute holds `name = "<name>"`.
pub open spec fn names(attr: Attribute, name: Seq<char>) -> bool {
    attr.args matches Some(arguments) && arguments@ == (ArgumentsModel::NameValue {
        keyed: true,
        value: Some(name),
    })
}

/// An item whose one overriding attribute names it takes that name,
/// whatever it was declared under.
pub proof fn lemma_override_is_canonical(
    attrs: Seq<Attribute>,
    declared: Seq<char>,
    name: Seq<char>,
)
    requires
        overrides(attrs).len() == 1,
        names(overrides(attrs)[0], name),
    ensures
        resolve_override(attrs) == Ok::<Option<Seq<char>>, DeriveError>(Some(name)),
        canonical(attrs, declared) == Ok::<Seq<char>, DeriveError>(name),
{
}

/// An item without an overriding attribute takes the name it was declared
/// under.
pub proof fn lemma_declared_is_canonical(attrs: Seq<Attribute>, declared: Seq<char>)
    requires
        overrides(attrs).len() == 0,
    ensures
        resolve_override(attrs) == Ok::<Option<Seq<char>>, DeriveError>(None),
        canonical(attrs, declared) == Ok::<Seq<char>, DeriveError>(declared),
{
}

/// The override that the attributes of one item give.
///
/// `Ok(None)` when none of them is a `type_hash` attribute, `Ok(Some(name))`
/// when exactly one is and its arguments are `name = "..."`, and otherwise
/// an error: the attribute must not repeat, whatever its arguments are, and
/// it must have arguments of that form.
pub fn parse_attrs(attrs: &Vec<Attribute>) -> (result: Result<Option<String>, DeriveError>)
    ensures
        override_view(result) == resolve_override(attrs@),
{
    let mut found: Option<usize> = None;
    let mut i: usize = 0;
    let attribute = ATTRIBUTE.to_owned();
    while i < attrs.len()
        invariant
            i <= attrs.len(),
            attribute@ == ATTRIBUTE@,
            match found {
                None => overrides(attrs@.take(i as int)).len() == 0,
                Some(at) => at < i && overrides(attrs@.take(i as int)) == seq![attrs@[at as int]],
            },
        decreases attrs.len() - i,
    {
        proof {
            lemma_overrides_push(attrs@.take(i as int), attrs@[i as int]);
            assert(attrs@.take(i + 1) =~= attrs@.take(i as int).push(attrs@[i as int]));
        }
        if attrs[i].path == attribute {
            if found.is_some() {
                proof {
                    Seq::filter_distributes_over_add(
                        attrs@.take(i + 1),
                        attrs@.skip(i + 1),
                        |attr: Attribute| is_override(attr),
                    );
                    assert(attrs@ =~= attrs@.take(i + 1) + attrs@.skip(i + 1));
                }
                return Err(DeriveError::RepeatedAttribute);
            }
            found = Some(i);
        }
        i += 1;
    }
    assert(attrs@.take(i as int) =~= attrs@);
    match found {
        None => Ok(None),
        Some(at) => match &attrs[at].args {
            None => Err(DeriveError::InvalidAttribute),
            Some(arguments) => match override_name(arguments) {
                Ok(name) => Ok(Some(name)),
                Err(error) => Err(error),
            },
        },
    }
}

/// Fields resolve one by one and keep their order: where every field has a
/// member, the members are those, position by position; otherwise the error
/// is that of the first field that has none.
pub proof fn lemma_members_of<T>(fields: Seq<FieldDef<T>>)
    ensures
        match members_of(fields) {
            Ok(members) => {
                &&& members.len() == fields.len()
                &&& forall|i: int|
                    0 <= i < fields.len() ==> member_of(#[trigger] fields[i]) == Ok::<
                        MemberModel<T>,
                        DeriveError,
                    >(members[i])
            },
            Err(error) => exists|i: int|
                {
                    &&& 0 <= i < fields.len()
                    &&& member_of(#[trigger] fields[i]) == Err::<MemberModel<T>, DeriveError>(error)
                    &&& forall|k: int| 0 <= k < i ==> member_of(#[trigger] fields[k]) is Ok
                },
        },
    decreases fields.len(),
{
    if fields.len() > 0 {
        let front = fields.drop_last();
        lemma_members_of(front);
        match members_of(front) {
            Ok(members) => {
                if member_of(fields.last()) is Err {
                    let at = fields.len() - 1;
                    assert(member_of(fields[at]) == Err::<MemberModel<T>, DeriveError>(
                        members_of(fields)->Err_0,
                    ));
                    assert forall|k: int| 0 <= k < at implies member_of(
                        #[trigger] fields[k],
                    ) is Ok by {
                        assert(fields[k] == front[k]);
                    }
                } else {
                    let all = members_of(fields)->Ok_0;
                    assert forall|i: int| 0 <= i < fields.len() implies member_of(
                        #[trigger] fields[i],
                    ) == Ok::<MemberModel<T>, DeriveError>(all[i]) by {
                        if i < front.len() {
                            assert(fields[i] == front[i]);
                        }
                    }
                }
            },
            Err(error) => {
                let at = choose|i: int|
                    {
                        &&& 0 <= i < front.len()
                        &&& member_of(#[trigger] front[i]) == Err::<MemberModel<T>, DeriveError>(
                            error,
                        )
                        &&& forall|k: int| 0 <= k < i ==> member_of(#[trigger] front[k]) is Ok
                    };
                assert(fields[at] == front[at]);
                assert forall|k: int| 0 <= k < at implies member_of(#[trigger] fields[k]) is Ok by {
                    assert(fields[k] == front[k]);
                }
            },
        }
    }
}

/// Variants resolve one by one and keep their order: where every variant
/// resolves, the result holds them position by position; otherwise the
/// error is that of the first variant that does not.
pub proof fn lemma_variants_of<T>(variants: Seq<VariantDef<T>>)
    ensures
        match variants_of(variants) {
            Ok(resolved) => {
                &&& resolved.len() == variants.len()
                &&& forall|i: int|
                    0 <= i < variants.len() ==> variant_of(#[trigger] variants[i]) == Ok::<
                        VariantModel<T>,
                        DeriveError,
                    >(resolved[i])
            },
            Err(error) => exists|i: int|
                {
                    &&& 0 <= i < variants.len()
                    &&& variant_of(#[trigger] variants[i]) == Err::<VariantModel<T>, DeriveError>(
                        error,
                    )
                    &&& forall|k: int| 0 <= k < i ==> variant_of(#[trigger] variants[k]) is Ok
                },
        },
    decreases variants.len(),
{
    if variants.len() > 0 {
        let front = variants.drop_last();
        lemma_variants_of(front);
        match variants_of(front) {
            Ok(resolved) => {
                if variant_of(variants.last()) is Err {
                    let at = variants.len() - 1;
                    assert(variant_of(variants[at]) == Err::<VariantModel<T>, DeriveError>(
                        variants_of(variants)->Err_0,
                    ));
                    assert forall|k: int| 0 <= k < at implies variant_of(
                        #[trigger] variants[k],
                    ) is Ok by {
                        assert(variants[k] == front[k]);
                    }
                } else {
                    let all = variants_of(variants)->Ok_0;
                    assert forall|i: int| 0 <= i < variants.len() implies variant_of(
                        #[trigger] variants[i],
                    ) == Ok::<VariantModel<T>, DeriveError>(all[i]) by {
                        if i < front.len() {
                            assert(variants[i] == front[i]);
                        }
                    }
                }
            },
            Err(error) => {
                let at = choose|i: int|
                    {
                        &&& 0 <= i < front.len()
                        &&& variant_of(#[trigger] front[i]) == Err::<VariantModel<T>, DeriveError>(
                            error,
                        )
                        &&& forall|k: int| 0 <= k < i ==> variant_of(#[trigger] front[k]) is Ok
                    };
                assert(variants[at] == front[at]);
                assert forall|k: int| 0 <= k < at implies variant_of(
                    #[trigger] variants[k],
                ) is Ok by {
                    assert(variants[k] == front[k]);
                }
            },
        }
    }
}

/// Once a prefix of the fields has an error, the whole sequence has it.
proof fn lemma_members_error_persists<T>(fields: Seq<FieldDef<T>>, n: int)
    requires
        0 <= n <= fields.len(),
        members_of(fields.take(n)) is Err,
    ensures
        members_of(fields) == members_of(fields.take(n)),
    decreases fields.len() - n,
{
    if n == fields.len() {
        assert(fields.take(n) =~= fields);
    } else {
        assert(fields.take(n + 1).drop_last() =~= fields.take(n));
        lemma_members_error_persists(fields, n + 1);
    }
}

/// Once a prefix of the variants has an error, the whole sequence has it.
proof fn lemma_variants_error_persists<T>(variants: Seq<VariantDef<T>>, n: int)
    requires
        0 <= n <= variants.len(),
        variants_of(variants.take(n)) is Err,
    ensures
        variants_of(variants) == variants_of(variants.take(n)),
    decreases variants.len() - n,
{
    if n == variants.len() {
        assert(variants.take(n) =~= variants);
    } else {
        assert(variants.take(n + 1).drop_last() =~= variants.take(n));
        lemma_variants_error_persists(variants, n + 1);
    }
}

/// The member that a field becomes: its canonical name is its override if
/// it has one, else its identifier, else the anonymous marker. The type it
/// holds passes through.
pub fn hashing_field<T>(field: FieldDef<T>) -> (result: Result<Member<T>, DeriveError>)
    ensures
        result_view(result) == member_of(field),
{
    let FieldDef { attrs, ident, ty } = field;
    match parse_attrs(&attrs) {
        Err(error) => Err(error),
        Ok(Some(name)) => Ok(Member { name, ty }),
        Ok(None) => match ident {
            Some(name) => Ok(Member { name, ty }),
            None => Ok(Member { name: ANONYMOUS.to_owned(), ty }),
        },
    }
}

/// The members that fields become, in declaration order. The first field
/// with an error decides the error.
pub fn hashing_fields<T>(fields: Vec<FieldDef<T>>) -> (result: Result<Vec<Member<T>>, DeriveError>)
    ensures
        match members_of(fields@) {
            Ok(members) => result is Ok && members_view(result.unwrap()@) == members,
            Err(error) => result == Err::<Vec<Member<T>>, DeriveError>(error),
        },
{
    let ghost all = fields@;
    let mut members: Vec<Member<T>> = Vec::new();
    assert(members_view(members@) =~= Seq::empty());
    for field in it: fields.into_iter()
        invariant
            it.seq() == all,
            members_of(all.take(it.index() as int)) == Ok::<Seq<MemberModel<T>>, DeriveError>(
                members_view(members@),
            ),
    {
        let ghost at = it.index() as int;
        proof {
            assert(all.take(at + 1).drop_last() =~= all.take(at));
            assert(all.take(at + 1).last() == field);
        }
        match hashing_field(field) {
            Err(error) => {
                proof {
                    lemma_members_error_persists(all, at + 1);
                }
                return Err(error);
            },
            Ok(member) => {
                let ghost before = members@;
                members.push(member);
                assert(members_view(members@) =~= members_view(before).push(member@));
            },
        }
    }
    assert(all.take(all.len() as int) =~= all);
    Ok(members)
}

/// The variant that a declared variant becomes: its canonical name is its
/// override if it has one, else its identifier; its members are its fields
/// in declaration order.
pub fn hashing_variant<T>(variant: VariantDef<T>) -> (result: Result<Variant<T>, DeriveError>)
    ensures
        result_view(result) == variant_of(variant),
{
    let VariantDef { attrs, ident, fields } = variant;
    let name = match parse_attrs(&attrs) {
        Err(error) => {
            return Err(error);
        },
        Ok(Some(name)) => name,
        Ok(None) => ident,
    };
    match hashing_fields(fields) {
        Err(error) => Err(error),
        Ok(members) => Ok(Variant { name, members }),
    }
}

/// The variants that declared variants become, in declaration order. The
/// first variant with an error decides the error.
pub fn hashing_variants<T>(variants: Vec<VariantDef<T>>) -> (result: Result<
    Vec<Variant<T>>,
    DeriveError,
>)
    ensures
        match variants_of(variants@) {
            Ok(resolved) => result is Ok && variants_view(result.unwrap()@) == resolved,
            Err(error) => result == Err::<Vec<Variant<T>>, DeriveError>(error),
        },
{
    let ghost all = variants@;
    let mut resolved: Vec<Variant<T>> = Vec::new();
    assert(variants_view(resolved@) =~= Seq::empty());
    for variant in it: variants.into_iter()
        invariant
            it.seq() == all,
            variants_of(all.take(it.index() as int)) == Ok::<Seq<VariantModel<T>>, DeriveError>(
                variants_view(resolved@),
            ),
    {
        let ghost at = it.index() as int;
        proof {
            assert(all.take(at + 1).drop_last() =~= all.take(at));
            assert(all.take(at + 1).last() == variant);
        }
        match hashing_variant(variant) {
            Err(error) => {
                proof {
                    lemma_variants_error_persists(all, at + 1);
                }
                return Err(error);
            },
            Ok(one) => {
                let ghost before = resolved@;
                resolved.push(one);
                assert(variants_view(resolved@) =~= variants_view(before).push(one@));
            },
        }
    }
    assert(all.take(all.len() as int) =~= all);
    Ok(resolved)
}

/// The struct-like composite of a definition: its canonical name is its
/// override if it has one, else its identifier; its fields keep their
/// order. The item's own attributes are read before those of its fields.
pub fn hashing_struct<T>(
    attrs: &Vec<Attribute>,
    ident: String,
    fields: Vec<FieldDef<T>>,
) -> (result: Result<Composite<T>, DeriveError>)
    ensures
        result_view(result) == struct_of(attrs@, ident@, fields@),
{
    let name = match parse_attrs(attrs) {
        Err(error) => {
            return Err(error);
        },
        Ok(Some(name)) => name,
        Ok(None) => ident,
    };
    match hashing_fields(fields) {
        Err(error) => Err(error),
        Ok(fields) => Ok(Composite::Struct { name, fields }),
    }
}

/// The enum-like composite of a definition: its canonical name is its
/// override if it has one, else its identifier; its variants keep their
/// order. The item's own attributes are read before those of its variants.
pub fn hashing_enum<T>(
    attrs: &Vec<Attribute>,
    ident: String,
    variants: Vec<VariantDef<T>>,
) -> (result: Result<Composite<T>, DeriveError>)
    ensures
        result_view(result) == enum_of(attrs@, ident@, variants@),
{
    let name = match parse_attrs(attrs) {
        Err(error) => {
            return Err(error);
        },
        Ok(Some(name)) => name,
        Ok(None) => ident,
    };
    match hashing_variants(variants) {
        Err(error) => Err(error),
        Ok(variants) => Ok(Composite::Enum { name, variants }),
    }
}

/// The composite of a declared item, with every canonical name resolved.
///
/// A union has no composite. An item, variant or field that carries the
/// `type_hash` attribute more than once, or with arguments other than
/// `name = "..."`, has none either; the first such place in declaration
/// order decides the error.
pub fn derive<T>(input: ItemDef<T>) -> (result: Result<Composite<T>, DeriveError>)
    ensures
        result_view(result) == composite_of(input),
{
    let ItemDef { attrs, ident, data } = input;
    match data {
        DataDef::Struct(fields) => hashing_struct(&attrs, ident, fields),
        DataDef::Enum(variants) => hashing_enum(&attrs, ident, variants),
        DataDef::Union => Err(DeriveError::UnsupportedUnion),
    }
}

} // verus!
