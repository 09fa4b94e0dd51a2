//! The type graph: every type definition of a schema, keyed by its position,
//! and the references between them.

use vstd::prelude::*;

verus! {

/// A reference to a type, as it stands in a field, in a variant payload or in
/// a generic argument.
#[derive(Debug)]
pub enum TypeRef {
    /// Owned text.
    Text,
    /// Text borrowed from the backing buffer.
    TextView,
    /// A number.
    Numeric,
    /// A boolean.
    Boolean,
    /// An optional value of the inner type.
    Optional(Box<TypeRef>),
    /// A sequence of values of the inner type.
    Sequence(Box<TypeRef>),
    /// A mapping from text keys to values of the inner type.
    Mapping(Box<TypeRef>),
    /// A free-form JSON object: opaque by design, it always stays owned.
    JsonMap,
    /// The type definition at index `target` of the graph, with its generic
    /// arguments; `scoped` is set once the reference supplies the view scope.
    /// A target past the end of the graph is an external type.
    Named { target: usize, scoped: bool, args: TypeArgs },
}

/// The generic arguments of a named reference, in order.
#[derive(Debug)]
pub enum TypeArgs {
    Nil,
    Cons(Box<TypeRef>, Box<TypeArgs>),
}

/// Whether `t` is a member of the set of type indices `r`.
pub open spec fn member(r: Seq<bool>, t: int) -> bool {
    0 <= t < r.len() && r[t]
}

/// Whether `ty` names, at any depth, a type of `r`.
pub open spec fn mentions(ty: TypeRef, r: Seq<bool>) -> bool
    decreases ty,
{
    match ty {
        TypeRef::Optional(inner) => mentions(*inner, r),
        TypeRef::Sequence(inner) => mentions(*inner, r),
        TypeRef::Mapping(inner) => mentions(*inner, r),
        TypeRef::Named { target, scoped, args } => member(r, target as int) || args_mention(args, r),
        _ => false,
    }
}

/// Whether one of the arguments `a` names, at any depth, a type of `r`.
pub open spec fn args_mention(a: TypeArgs, r: Seq<bool>) -> bool
    decreases a,
{
    match a {
        TypeArgs::Nil => false,
        TypeArgs::Cons(head, tail) => mentions(*head, r) || args_mention(*tail, r),
    }
}


/// Whether `ty` names, at any depth, the type at index `u`.
pub open spec fn names(ty: TypeRef, u: int) -> bool
    decreases ty,
{
    match ty {
        TypeRef::Optional(inner) => names(*inner, u),
        TypeRef::Sequence(inner) => names(*inner, u),
        TypeRef::Mapping(inner) => names(*inner, u),
        TypeRef::Named { target, scoped, args } => target == u || args_name(args, u),
        _ => false,
    }
}

/// Whether one of the arguments `a` names, at any depth, the type at `u`.
pub open spec fn args_name(a: TypeArgs, u: int) -> bool
    decreases a,
{
    match a {
        TypeArgs::Nil => false,
        TypeArgs::Cons(head, tail) => names(*head, u) || args_name(*tail, u),
    }
}

/// A reference that names a member of `r` names a type of `r`.
pub proof fn lemma_names_mentions(ty: TypeRef, u: int, r: Seq<bool>)
    requires
        names(ty, u),
        member(r, u),
    ensures
        mentions(ty, r),
    decreases ty,
{
    match ty {
        TypeRef::Optional(inner) => lemma_names_mentions(*inner, u, r),
        TypeRef::Sequence(inner) => lemma_names_mentions(*inner, u, r),
        TypeRef::Mapping(inner) => lemma_names_mentions(*inner, u, r),
        TypeRef::Named { target, scoped, args } => {
            if target != u {
                lemma_args_name_mentions(args, u, r);
            }
        },
        _ => {},
    }
}

/// An argument that names a member of `r` names a type of `r`.
pub proof fn lemma_args_name_mentions(a: TypeArgs, u: int, r: Seq<bool>)
    requires
        args_name(a, u),
        member(r, u),
    ensures
        args_mention(a, r),
    decreases a,
{
    match a {
        TypeArgs::Nil => {},
        TypeArgs::Cons(head, tail) => {
            if names(*head, u) {
                lemma_names_mentions(*head, u, r);
            } else {
                lemma_args_name_mentions(*tail, u, r);
            }
        },
    }
}

/// Whether `ty` holds, at any depth, text borrowed from the backing buffer.
pub open spec fn has_view(ty: TypeRef) -> bool
    decreases ty,
{
    match ty {
        TypeRef::TextView => true,
        TypeRef::Optional(inner) => has_view(*inner),
        TypeRef::Sequence(inner) => has_view(*inner),
        TypeRef::Mapping(inner) => has_view(*inner),
        TypeRef::Named { target, scoped, args } => args_have_view(args),
        _ => false,
    }
}

/// Whether one of the arguments `a` holds, at any depth, borrowed text.
pub open spec fn args_have_view(a: TypeArgs) -> bool
    decreases a,
{
    match a {
        TypeArgs::Nil => false,
        TypeArgs::Cons(head, tail) => has_view(*head) || args_have_view(*tail),
    }
}

/// Whether `ty` names, at any depth, a type through a reference that supplies
/// the view scope.
pub open spec fn has_scoped(ty: TypeRef) -> bool
    decreases ty,
{
    match ty {
        TypeRef::Optional(inner) => has_scoped(*inner),
        TypeRef::Sequence(inner) => has_scoped(*inner),
        TypeRef::Mapping(inner) => has_scoped(*inner),
        TypeRef::Named { target, scoped, args } => scoped || args_have_scoped(args),
        _ => false,
    }
}

/// Whether one of the arguments `a` holds, at any depth, a scoped reference.
pub open spec fn args_have_scoped(a: TypeArgs) -> bool
    decreases a,
{
    match a {
        TypeArgs::Nil => false,
        TypeArgs::Cons(head, tail) => has_scoped(*head) || args_have_scoped(*tail),
    }
}

/// Whether one of the arguments `a` is itself owned text.
pub open spec fn args_have_text(a: TypeArgs) -> bool
    decreases a,
{
    match a {
        TypeArgs::Nil => false,
        TypeArgs::Cons(head, tail) => *head is Text || args_have_text(*tail),
    }
}

/// Whether `ty` is a text leaf that the classifier turns into a view: owned
/// text itself, or owned text directly inside one level of a generic wrapper.
/// Deeper text is left owned.
pub open spec fn text_leaf(ty: TypeRef) -> bool {
    match ty {
        TypeRef::Text => true,
        TypeRef::Optional(inner) => *inner is Text,
        TypeRef::Sequence(inner) => *inner is Text,
        TypeRef::Mapping(inner) => *inner is Text,
        TypeRef::Named { target, scoped, args } => args_have_text(args),
        _ => false,
    }
}

/// Whether a field of type `ty` makes its container require the view scope,
/// given the current requirement set `r`: it has a text leaf to rewrite, it
/// already holds a view, or it names a type of `r`.
pub open spec fn field_requires(ty: TypeRef, r: Seq<bool>) -> bool {
    text_leaf(ty) || has_view(ty) || mentions(ty, r)
}

/// A named field of a record, or a payload of a union variant.
pub struct Field {
    /// The field's name; absent for an unnamed variant payload.
    pub name: Option<String>,
    pub ty: TypeRef,
    /// Whether the field carries the attribute that lets decoding borrow
    /// from the buffer through a nested type.
    pub borrow: bool,
}

/// What a [`Field`] is, as plain values.
pub ghost struct FieldModel {
    pub name: Option<Seq<char>>,
    pub ty: TypeRef,
    pub borrow: bool,
}

impl View for Field {
    type V = FieldModel;

    open spec fn view(&self) -> FieldModel {
        FieldModel {
            name: match self.name {
                Some(n) => Some(n@),
                None => None,
            },
            ty: self.ty,
            borrow: self.borrow,
        }
    }
}

/// The fields of `fs`, as plain values.
pub open spec fn fields_model(fs: Seq<Field>) -> Seq<FieldModel> {
    fs.map_values(|f: Field| f@)
}

/// A variant of a union.
pub struct Variant {
    pub name: String,
    /// Whether the variant is selected by a discriminant value (tagged) or by
    /// trying the variants in order (untagged).
    pub tagged: bool,
    pub payload: Vec<Field>,
}

/// What a [`Variant`] is, as plain values.
pub ghost struct VariantModel {
    pub name: Seq<char>,
    pub tagged: bool,
    pub payload: Seq<FieldModel>,
}

impl View for Variant {
    type V = VariantModel;

    open spec fn view(&self) -> VariantModel {
        VariantModel { name: self.name@, tagged: self.tagged, payload: fields_model(self.payload@) }
    }
}

/// The variants `vs`, as plain values.
pub open spec fn variants_model(vs: Seq<Variant>) -> Seq<VariantModel> {
    vs.map_values(|v: Variant| v@)
}

/// What a type definition holds, by kind.
pub enum Body {
    Record(Vec<Field>),
    Union(Vec<Variant>),
}

/// What a [`Body`] is, as plain values.
pub ghost enum BodyModel {
    Record(Seq<FieldModel>),
    Union(Seq<VariantModel>),
}

impl View for Body {
    type V = BodyModel;

    open spec fn view(&self) -> BodyModel {
        match self {
            Body::Record(fs) => BodyModel::Record(fields_model(fs@)),
            Body::Union(vs) => BodyModel::Union(variants_model(vs@)),
        }
    }
}

/// A type definition of the schema.
pub struct TypeDef {
    pub name: String,
    /// Formal generic parameters, other than the view scope.
    pub params: Vec<String>,
    pub body: Body,
    /// Whether the type is decoded from messages; only such types get views.
    pub deserializable: bool,
    /// Whether the definition carries the view-scope parameter.
    pub scoped: bool,
}

/// What a [`TypeDef`] is, as plain values.
pub ghost struct TypeDefModel {
    pub name: Seq<char>,
    pub params: Seq<Seq<char>>,
    pub body: BodyModel,
    pub deserializable: bool,
    pub scoped: bool,
}

impl View for TypeDef {
    type V = TypeDefModel;

    open spec fn view(&self) -> TypeDefModel {
        TypeDefModel {
            name: self.name@,
            params: self.params@.map_values(|p: String| p@),
            body: self.body@,
            deserializable: self.deserializable,
            scoped: self.scoped,
        }
    }
}

/// A piece of logic attached to a type (an impl block): the type it is for,
/// and the contract (trait) it implements, if any.
pub struct Behavior {
    pub subject: TypeRef,
    pub contract: Option<TypeRef>,
    /// Whether the block carries the view-scope parameter.
    pub scoped: bool,
}

/// What a [`Behavior`] is, as plain values.
pub ghost struct BehaviorModel {
    pub subject: TypeRef,
    pub contract: Option<TypeRef>,
    pub scoped: bool,
}

impl View for Behavior {
    type V = BehaviorModel;

    open spec fn view(&self) -> BehaviorModel {
        BehaviorModel { subject: self.subject, contract: self.contract, scoped: self.scoped }
    }
}

/// All type definitions of a schema, each known by its index, and the
/// behavior blocks attached to them.
pub struct Graph {
    pub types: Vec<TypeDef>,
    pub behaviors: Vec<Behavior>,
}

/// What a [`Graph`] is, as plain values.
pub ghost struct GraphModel {
    pub types: Seq<TypeDefModel>,
    pub behaviors: Seq<BehaviorModel>,
}

impl View for Graph {
    type V = GraphModel;

    open spec fn view(&self) -> GraphModel {
        GraphModel {
            types: self.types@.map_values(|t: TypeDef| t@),
            behaviors: self.behaviors@.map_values(|b: Behavior| b@),
        }
    }
}


/// The index of the first type definition named `name`, if any.
pub fn lookup(g: &Graph, name: &String) -> (found: Option<usize>)
    ensures
        match found {
            Some(t) => t < g.types@.len() && g.types@[t as int].name@ == name@ && forall|k: int|
                0 <= k < t ==> #[trigger] g.types@[k].name@ != name@,
            None => forall|k: int| 0 <= k < g.types@.len() ==> #[trigger] g.types@[k].name@ != name@,
        },
{
    let mut t: usize = 0;
    while t < g.types.len()
        invariant
            0 <= t <= g.types@.len(),
            forall|k: int| 0 <= k < t ==> #[trigger] g.types@[k].name@ != name@,
        decreases g.types.len() - t,
    {
        if g.types[t].name == *name {
            return Some(t);
        }
        t += 1;
    }
    None
}

/// The JSON-schema type of a value of type `ty`, as a tool description gives
/// it: borrowed text, a reference, is of no known schema type.
pub open spec fn schema_type(ty: TypeRef) -> Seq<char>
    decreases ty,
{
    match ty {
        TypeRef::Text => "string"@,
        TypeRef::TextView => "unknown"@,
        TypeRef::Numeric => "number"@,
        TypeRef::Boolean => "boolean"@,
        TypeRef::Sequence(_) => "array"@,
        TypeRef::Optional(inner) => schema_type(*inner),
        _ => "object"@,
    }
}

/// The JSON-schema type of a value of type `ty`: an optional value has the
/// type of its content, and borrowed text is of no known type.
pub fn schema_type_name(ty: &TypeRef) -> (name: &'static str)
    ensures
        name@ == schema_type(*ty),
    decreases ty,
{
    match ty {
        TypeRef::Text => "string",
        TypeRef::TextView => "unknown",
        TypeRef::Numeric => "number",
        TypeRef::Boolean => "boolean",
        TypeRef::Sequence(_) => "array",
        TypeRef::Optional(inner) => schema_type_name(inner),
        _ => "object",
    }
}


/// Whether a field, or a variant payload, of body `b` names the type at `u`.
pub open spec fn body_names(b: BodyModel, u: int) -> bool {
    match b {
        BodyModel::Record(fs) => exists|i: int| 0 <= i < fs.len() && names(#[trigger] fs[i].ty, u),
        BodyModel::Union(vs) => exists|i: int, j: int|
            0 <= i < vs.len() && 0 <= j < vs[i].payload.len() && names(
                #[trigger] vs[i].payload[j].ty,
                u,
            ),
    }
}

/// Marks in `mask` every type that `ty` names.
fn mark_names(ty: &TypeRef, mask: &mut Vec<bool>)
    ensures
        final(mask)@.len() == old(mask)@.len(),
        forall|u: int|
            0 <= u < old(mask)@.len() ==> #[trigger] final(mask)@[u] == (old(mask)@[u] || names(
                *ty,
                u,
            )),
    decreases ty,
{
    match ty {
        TypeRef::Optional(inner) => mark_names(inner, mask),
        TypeRef::Sequence(inner) => mark_names(inner, mask),
        TypeRef::Mapping(inner) => mark_names(inner, mask),
        TypeRef::Named { target, scoped: _, args } => {
            if *target < mask.len() {
                mask[*target] = true;
            }
            mark_args(args, mask);
        },
        _ => {},
    }
}

/// Marks in `mask` every type that one of the arguments `a` names.
fn mark_args(a: &TypeArgs, mask: &mut Vec<bool>)
    ensures
        final(mask)@.len() == old(mask)@.len(),
        forall|u: int|
            0 <= u < old(mask)@.len() ==> #[trigger] final(mask)@[u] == (old(mask)@[u] || args_name(
                *a,
                u,
            )),
    decreases a,
{
    match a {
        TypeArgs::Nil => {},
        TypeArgs::Cons(head, tail) => {
            mark_names(head, mask);
            mark_args(tail, mask);
        },
    }
}

/// Marks in `mask` every type that one of the fields `fs` names.
fn mark_fields(fs: &Vec<Field>, mask: &mut Vec<bool>)
    ensures
        final(mask)@.len() == old(mask)@.len(),
        forall|u: int|
            0 <= u < old(mask)@.len() ==> #[trigger] final(mask)@[u] == (old(mask)@[u] || exists|
                i: int,
            | 0 <= i < fs@.len() && names(#[trigger] fs@[i].ty, u)),
{
    let ghost start = mask@;
    let mut i: usize = 0;
    while i < fs.len()
        invariant
            0 <= i <= fs@.len(),
            mask@.len() == start.len(),
            forall|u: int|
                0 <= u < start.len() ==> #[trigger] mask@[u] == (start[u] || exists|k: int|
                    0 <= k < i && names(#[trigger] fs@[k].ty, u)),
        decreases fs.len() - i,
    {
        let ghost before = mask@;
        mark_names(&fs[i].ty, mask);
        proof {
            assert forall|u: int| 0 <= u < start.len() implies #[trigger] mask@[u] == (start[u]
                || exists|k: int| 0 <= k < i + 1 && names(#[trigger] fs@[k].ty, u)) by {
                if names(fs@[i as int].ty, u) {
                    assert(0 <= i < i + 1 && names(fs@[i as int].ty, u));
                }
                if exists|k: int| 0 <= k < i + 1 && names(#[trigger] fs@[k].ty, u) {
                    let k = choose|k: int| 0 <= k < i + 1 && names(#[trigger] fs@[k].ty, u);
                    if k < i {
                        assert(before[u]);
                    }
                }
            }
        }
        i += 1;
    }
}

/// The types that the definition at index `t` refers to through its fields
/// or variant payloads, at any depth; external types are left out.
pub fn referenced_types(g: &Graph, t: usize) -> (r: Vec<bool>)
    requires
        t < g.types@.len(),
    ensures
        r@.len() == g.types@.len(),
        forall|u: int| 0 <= u < r@.len() ==> #[trigger] r@[u] == body_names(g@.types[t as int].body, u),
{
    let n = g.types.len();
    let mut mask: Vec<bool> = Vec::new();
    let mut k: usize = 0;
    while k < n
        invariant
            0 <= k <= n,
            mask@.len() == k,
            forall|u: int| 0 <= u < k ==> !#[trigger] mask@[u],
        decreases n - k,
    {
        mask.push(false);
        k += 1;
    }
    let d = &g.types[t];
    assert(g@.types[t as int].body == d.body@);
    match &d.body {
        Body::Record(fs) => {
            mark_fields(fs, &mut mask);
            assert forall|u: int| 0 <= u < mask@.len() implies #[trigger] mask@[u] == body_names(
                d.body@,
                u,
            ) by {
                let m = fields_model(fs@);
                if exists|i: int| 0 <= i < fs@.len() && names(#[trigger] fs@[i].ty, u) {
                    let i = choose|i: int| 0 <= i < fs@.len() && names(#[trigger] fs@[i].ty, u);
                    assert(m[i].ty == fs@[i].ty);
                }
                if body_names(d.body@, u) {
                    let i = choose|i: int| 0 <= i < m.len() && names(#[trigger] m[i].ty, u);
                    assert(m[i].ty == fs@[i].ty);
                }
            }
        },
        Body::Union(vs) => {
            let ghost vm = variants_model(vs@);
            let mut i: usize = 0;
            while i < vs.len()
                invariant
                    0 <= i <= vs@.len(),
                    mask@.len() == n,
                    vm == variants_model(vs@),
                    forall|u: int|
                        0 <= u < n ==> #[trigger] mask@[u] == exists|a: int, j: int|
                            0 <= a < i && 0 <= j < vm[a].payload.len() && names(
                                #[trigger] vm[a].payload[j].ty,
                                u,
                            ),
                decreases vs.len() - i,
            {
                let ghost before = mask@;
                mark_fields(&vs[i].payload, &mut mask);
                proof {
                    let fs = vs@[i as int].payload@;
                    assert(vm[i as int].payload == fields_model(fs));
                    assert forall|u: int| 0 <= u < n implies #[trigger] mask@[u] == exists|
                        a: int,
                        j: int,
                    |
                        0 <= a < i + 1 && 0 <= j < vm[a].payload.len() && names(
                            #[trigger] vm[a].payload[j].ty,
                            u,
                        ) by {
                        if exists|j: int| 0 <= j < fs.len() && names(#[trigger] fs[j].ty, u) {
                            let j = choose|j: int| 0 <= j < fs.len() && names(#[trigger] fs[j].ty, u);
                            assert(vm[i as int].payload[j].ty == fs[j].ty);
                        }
                        if exists|a: int, j: int|
                            0 <= a < i + 1 && 0 <= j < vm[a].payload.len() && names(
                                #[trigger] vm[a].payload[j].ty,
                                u,
                            ) {
                            let (a, j) = choose|a: int, j: int|
                                0 <= a < i + 1 && 0 <= j < vm[a].payload.len() && names(
                                    #[trigger] vm[a].payload[j].ty,
                                    u,
                                );
                            if a == i {
                                assert(vm[i as int].payload[j].ty == fs[j].ty);
                            } else {
                                assert(before[u]);
                            }
                        }
                    }
                }
                i += 1;
            }
            assert(d.body@ == BodyModel::Union(vm));
        },
    }
    mask
}

} // verus!
