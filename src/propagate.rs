//! The fixpoint propagation engine: pass by pass, grows the set of types that
//! require the view scope and rewrites every definition, usage site and
//! behavior block to match, until the set is closed under the reference
//! relation.

use vstd::prelude::*;
use crate::classify::{
    classify_field, completed, complete_usages, is_member, names_member, rewrite_field,
    rewritten_field,
};
use crate::graph::{
    args_mention, field_requires, fields_model, member, mentions, variants_model, Behavior,
    BehaviorModel, Body, BodyModel, Field, FieldModel, Graph, GraphModel, TypeArgs, TypeDef,
    TypeDefModel, TypeRef, Variant, VariantModel,
};
use crate::laws::{lemma_rewrite_compose, lemma_step_on_rewritten};

verus! {

/// Whether the type at index `t` may require the view scope: it is in the
/// graph, it is not excluded by `x`, and it is decoded from messages.
pub open spec fn eligible(g: GraphModel, x: Seq<bool>, t: int) -> bool {
    0 <= t < g.types.len() && !member(x, t) && g.types[t].deserializable
}

/// Whether one of the fields `fs` makes its container require the scope.
pub open spec fn fields_require(fs: Seq<FieldModel>, r: Seq<bool>) -> bool {
    exists|i: int| 0 <= i < fs.len() && field_requires(#[trigger] fs[i].ty, r)
}

/// Whether a definition with body `b` requires the scope, given the current
/// requirement set `r`: a field of a record, or a payload of one of the
/// variants of a union, does.
pub open spec fn body_requires(b: BodyModel, r: Seq<bool>) -> bool {
    match b {
        BodyModel::Record(fs) => fields_require(fs, r),
        BodyModel::Union(vs) => exists|i: int|
            0 <= i < vs.len() && fields_require(#[trigger] vs[i].payload, r),
    }
}

/// Whether the type at index `t` requires the scope, given `r`.
pub open spec fn type_requires(g: GraphModel, x: Seq<bool>, r: Seq<bool>, t: int) -> bool {
    eligible(g, x, t) && body_requires(g.types[t].body, r)
}

/// One pass of definition upgrade: `r` grown by every type that requires the
/// scope given `r`.
pub open spec fn step(g: GraphModel, x: Seq<bool>, r: Seq<bool>) -> Seq<bool> {
    Seq::new(g.types.len(), |t: int| member(r, t) || type_requires(g, x, r, t))
}

/// Whether `r` is a requirement set of the graph's size that nothing more
/// requires entering: every type that requires the scope given `r` is in it.
pub open spec fn closed(g: GraphModel, x: Seq<bool>, r: Seq<bool>) -> bool {
    &&& r.len() == g.types.len()
    &&& forall|t: int| #[trigger] type_requires(g, x, r, t) ==> member(r, t)
}

/// Whether every member of `a` is a member of `b`.
pub open spec fn subset(a: Seq<bool>, b: Seq<bool>) -> bool {
    forall|t: int| #[trigger] member(a, t) ==> member(b, t)
}

/// Whether `r` is the least closed requirement set: the fixpoint of
/// propagation.
pub open spec fn least_closed(g: GraphModel, x: Seq<bool>, r: Seq<bool>) -> bool {
    &&& closed(g, x, r)
    &&& forall|s: Seq<bool>| #[trigger] closed(g, x, s) ==> subset(r, s)
}

/// The number of members of `r`.
pub open spec fn count(r: Seq<bool>) -> nat
    decreases r.len(),
{
    if r.len() == 0 {
        0
    } else {
        count(r.drop_last()) + if r.last() {
            1nat
        } else {
            0nat
        }
    }
}

/// The fields `fs` rewritten with `r`.
pub open spec fn rewritten_fields(fs: Seq<FieldModel>, upgrade: bool, r: Seq<bool>) -> Seq<
    FieldModel,
> {
    fs.map_values(|f: FieldModel| rewritten_field(f, upgrade, r))
}

/// The body `b` rewritten with `r`.
pub open spec fn rewritten_body(b: BodyModel, upgrade: bool, r: Seq<bool>) -> BodyModel {
    match b {
        BodyModel::Record(fs) => BodyModel::Record(rewritten_fields(fs, upgrade, r)),
        BodyModel::Union(vs) => BodyModel::Union(
            vs.map_values(
                |v: VariantModel|
                    VariantModel {
                        name: v.name,
                        tagged: v.tagged,
                        payload: rewritten_fields(v.payload, upgrade, r),
                    },
            ),
        ),
    }
}

/// Definition `d` rewritten with `r`; `required` says whether it is in `r`,
/// and then it gains the view-scope parameter and its text leaves become
/// views.
pub open spec fn rewritten_type(d: TypeDefModel, required: bool, r: Seq<bool>) -> TypeDefModel {
    TypeDefModel {
        name: d.name,
        params: d.params,
        body: rewritten_body(d.body, required, r),
        deserializable: d.deserializable,
        scoped: d.scoped || required,
    }
}

/// Behavior block `b` rewritten with `r`: its subject and contract supply the
/// scope where they name a type of `r`, and then the block gains the scope.
pub open spec fn rewritten_behavior(b: BehaviorModel, r: Seq<bool>) -> BehaviorModel {
    BehaviorModel {
        subject: completed(b.subject, r),
        contract: match b.contract {
            Some(c) => Some(completed(c, r)),
            None => None,
        },
        scoped: b.scoped || mentions(b.subject, r) || match b.contract {
            Some(c) => mentions(c, r),
            None => false,
        },
    }
}

/// Graph `g` with every definition, usage site and behavior block rewritten
/// for the requirement set `r`.
pub open spec fn rewritten_graph(g: GraphModel, r: Seq<bool>) -> GraphModel {
    GraphModel {
        types: Seq::new(g.types.len(), |t: int| rewritten_type(g.types[t], member(r, t), r)),
        behaviors: g.behaviors.map_values(|b: BehaviorModel| rewritten_behavior(b, r)),
    }
}

/// Whether `out` and `r` are the outcome of propagation on `g` with the
/// exclusions `x`: `r` is the least closed requirement set, and `out` is `g`
/// rewritten for it.
pub open spec fn propagated(g: GraphModel, x: Seq<bool>, out: GraphModel, r: Seq<bool>) -> bool {
    least_closed(g, x, r) && out == rewritten_graph(g, r)
}


/// Naming a type of a set stays true in any larger set.
pub proof fn lemma_mentions_monotone(ty: TypeRef, a: Seq<bool>, b: Seq<bool>)
    requires
        subset(a, b),
        mentions(ty, a),
    ensures
        mentions(ty, b),
    decreases ty,
{
    match ty {
        TypeRef::Optional(inner) => lemma_mentions_monotone(*inner, a, b),
        TypeRef::Sequence(inner) => lemma_mentions_monotone(*inner, a, b),
        TypeRef::Mapping(inner) => lemma_mentions_monotone(*inner, a, b),
        TypeRef::Named { target, scoped, args } => {
            if !member(a, target as int) {
                lemma_args_mention_monotone(args, a, b);
            }
        },
        _ => {},
    }
}

/// Naming a type of a set in an argument stays true in any larger set.
pub proof fn lemma_args_mention_monotone(args: TypeArgs, a: Seq<bool>, b: Seq<bool>)
    requires
        subset(a, b),
        args_mention(args, a),
    ensures
        args_mention(args, b),
    decreases args,
{
    match args {
        TypeArgs::Nil => {},
        TypeArgs::Cons(head, tail) => {
            if mentions(*head, a) {
                lemma_mentions_monotone(*head, a, b);
            } else {
                lemma_args_mention_monotone(*tail, a, b);
            }
        },
    }
}

/// A type that requires the scope given a set still does given a larger one.
pub proof fn lemma_type_requires_monotone(
    g: GraphModel,
    x: Seq<bool>,
    a: Seq<bool>,
    b: Seq<bool>,
    t: int,
)
    requires
        subset(a, b),
        type_requires(g, x, a, t),
    ensures
        type_requires(g, x, b, t),
{
    match g.types[t].body {
        BodyModel::Record(fs) => {
            let i = choose|i: int| 0 <= i < fs.len() && field_requires(#[trigger] fs[i].ty, a);
            if mentions(fs[i].ty, a) {
                lemma_mentions_monotone(fs[i].ty, a, b);
            }
            assert(field_requires(fs[i].ty, b));
        },
        BodyModel::Union(vs) => {
            let i = choose|i: int| 0 <= i < vs.len() && fields_require(#[trigger] vs[i].payload, a);
            let fs = vs[i].payload;
            let j = choose|j: int| 0 <= j < fs.len() && field_requires(#[trigger] fs[j].ty, a);
            if mentions(fs[j].ty, a) {
                lemma_mentions_monotone(fs[j].ty, a, b);
            }
            assert(field_requires(fs[j].ty, b));
            assert(fields_require(vs[i].payload, b));
        },
    }
}

/// Counting members: a pointwise larger set of the same length counts at
/// least as many, strictly more where it has one more member; no set counts
/// more than its length, and one that counts its length holds every index.
pub proof fn lemma_count(a: Seq<bool>, b: Seq<bool>)
    requires
        a.len() == b.len(),
        forall|t: int| 0 <= t < a.len() && a[t] ==> b[t],
    ensures
        count(a) <= count(b),
        count(b) <= b.len(),
        (exists|t: int| 0 <= t < a.len() && !a[t] && b[t]) ==> count(a) < count(b),
        count(b) == b.len() ==> forall|t: int| 0 <= t < b.len() ==> b[t],
    decreases a.len(),
{
    if a.len() > 0 {
        let a0 = a.drop_last();
        let b0 = b.drop_last();
        lemma_count(a0, b0);
        if exists|t: int| 0 <= t < a.len() && !a[t] && b[t] {
            let t = choose|t: int| 0 <= t < a.len() && !a[t] && b[t];
            if t < a.len() - 1 {
                assert(!a0[t] && b0[t]);
            }
        }
        if count(b) == b.len() {
            assert forall|t: int| 0 <= t < b.len() implies b[t] by {
                if t < b.len() - 1 {
                    assert(b0[t]);
                }
            }
        }
    }
}

/// One pass of upgrade never shrinks the requirement set.
pub proof fn lemma_step_monotone(g: GraphModel, x: Seq<bool>, r: Seq<bool>)
    requires
        r.len() == g.types.len(),
    ensures
        subset(r, step(g, x, r)),
        step(g, x, r).len() == r.len(),
{
    assert forall|t: int| #[trigger] member(r, t) implies member(step(g, x, r), t) by {}
}

/// Whether any field of `fs` makes its container require the scope.
fn any_field_requires(fs: &Vec<Field>, r: &Vec<bool>) -> (b: bool)
    ensures
        b == fields_require(fields_model(fs@), r@),
{
    let ghost m = fields_model(fs@);
    let mut i: usize = 0;
    while i < fs.len()
        invariant
            0 <= i <= fs.len(),
            m == fields_model(fs@),
            forall|k: int| 0 <= k < i ==> !field_requires(#[trigger] m[k].ty, r@),
        decreases fs.len() - i,
    {
        if classify_field(&fs[i].ty, r) {
            assert(field_requires(m[i as int].ty, r@));
            return true;
        }
        i += 1;
    }
    false
}

/// Whether a definition with body `b` requires the scope, given `r`.
pub fn classify_body(b: &Body, r: &Vec<bool>) -> (out: bool)
    ensures
        out == body_requires(b@, r@),
{
    match b {
        Body::Record(fs) => any_field_requires(fs, r),
        Body::Union(vs) => {
            let ghost m = variants_model(vs@);
            assert(b@ == BodyModel::Union(m));
            let mut i: usize = 0;
            while i < vs.len()
                invariant
                    0 <= i <= vs.len(),
                    m == variants_model(vs@),
                    b@ == BodyModel::Union(m),
                    forall|k: int| 0 <= k < i ==> !fields_require(#[trigger] m[k].payload, r@),
                decreases vs.len() - i,
            {
                assert(m[i as int] == vs@[i as int]@);
                if any_field_requires(&vs[i].payload, r) {
                    assert(0 <= i < m.len() && fields_require(m[i as int].payload, r@));
                    let ghost bm = b@;
                    assert(bm->Union_0 == m);
                    assert(bm->Union_0[i as int].payload == m[i as int].payload);
                    assert(body_requires(bm, r@));
                    return true;
                }
                i += 1;
            }
            false
        },
    }
}

/// Phase A, one pass: the requirement set `r` grown by every type that is not
/// excluded by `x`, is decoded from messages, and has a field that requires
/// the scope given `r`.
pub fn grow_requirements(g: &Graph, x: &Vec<bool>, r: &Vec<bool>) -> (out: Vec<bool>)
    requires
        r@.len() == g.types@.len(),
    ensures
        out@ == step(g@, x@, r@),
{
    let n = g.types.len();
    let mut out: Vec<bool> = Vec::new();
    let mut t: usize = 0;
    while t < n
        invariant
            0 <= t <= n,
            n == g.types@.len(),
            r@.len() == n,
            out@.len() == t,
            forall|k: int| 0 <= k < t ==> #[trigger] out@[k] == step(g@, x@, r@)[k],
        decreases n - t,
    {
        let d = &g.types[t];
        let grows = r[t] || (!is_member(x, t) && d.deserializable && classify_body(&d.body, r));
        out.push(grows);
        t += 1;
    }
    assert(out@ =~= step(g@, x@, r@));
    out
}


/// Whether `r` lies within every closed requirement set.
pub open spec fn below_every_closed(g: GraphModel, x: Seq<bool>, r: Seq<bool>) -> bool {
    forall|s: Seq<bool>| #[trigger] closed(g, x, s) ==> subset(r, s)
}

/// A pass of upgrade keeps the requirement set within every closed set.
proof fn lemma_step_below_closed(g: GraphModel, x: Seq<bool>, r: Seq<bool>)
    requires
        r.len() == g.types.len(),
        below_every_closed(g, x, r),
    ensures
        below_every_closed(g, x, step(g, x, r)),
{
    assert forall|s: Seq<bool>| #[trigger] closed(g, x, s) implies subset(step(g, x, r), s) by {
        assert forall|t: int| #[trigger] member(step(g, x, r), t) implies member(s, t) by {
            if !member(r, t) {
                lemma_type_requires_monotone(g, x, r, s, t);
            }
        }
    }
}

/// A set with no members counts none.
proof fn lemma_count_none(r: Seq<bool>)
    requires
        forall|k: int| 0 <= k < r.len() ==> !#[trigger] r[k],
    ensures
        count(r) == 0,
    decreases r.len(),
{
    if r.len() > 0 {
        lemma_count_none(r.drop_last());
    }
}


/// The fields `fs` rewritten with `r`.
fn rewrite_fields(fs: &Vec<Field>, upgrade: bool, r: &Vec<bool>) -> (out: Vec<Field>)
    ensures
        fields_model(out@) == rewritten_fields(fields_model(fs@), upgrade, r@),
{
    let mut out: Vec<Field> = Vec::new();
    let mut i: usize = 0;
    while i < fs.len()
        invariant
            0 <= i <= fs.len(),
            out@.len() == i,
            forall|k: int| 0 <= k < i ==> #[trigger] out@[k]@ == rewritten_field(fs@[k]@, upgrade, r@),
        decreases fs.len() - i,
    {
        out.push(rewrite_field(&fs[i], upgrade, r));
        i += 1;
    }
    assert(fields_model(out@) =~= rewritten_fields(fields_model(fs@), upgrade, r@));
    out
}

/// A copy of the names `ps`.
fn copy_names(ps: &Vec<String>) -> (out: Vec<String>)
    ensures
        out@ == ps@,
{
    let mut out: Vec<String> = Vec::new();
    let mut i: usize = 0;
    while i < ps.len()
        invariant
            0 <= i <= ps.len(),
            out@ == ps@.subrange(0, i as int),
        decreases ps.len() - i,
    {
        out.push(ps[i].clone());
        i += 1;
        assert(out@ =~= ps@.subrange(0, i as int));
    }
    assert(ps@.subrange(0, ps@.len() as int) =~= ps@);
    out
}

/// The body `b` rewritten with `r`.
fn rewrite_body(b: &Body, upgrade: bool, r: &Vec<bool>) -> (out: Body)
    ensures
        out@ == rewritten_body(b@, upgrade, r@),
{
    match b {
        Body::Record(fs) => Body::Record(rewrite_fields(fs, upgrade, r)),
        Body::Union(vs) => {
            let ghost m = variants_model(vs@);
            assert(b@ == BodyModel::Union(m));
            let mut out: Vec<Variant> = Vec::new();
            let mut i: usize = 0;
            while i < vs.len()
                invariant
                    0 <= i <= vs.len(),
                    m == variants_model(vs@),
                    out@.len() == i,
                    forall|k: int|
                        0 <= k < i ==> #[trigger] out@[k]@ == (VariantModel {
                            name: m[k].name,
                            tagged: m[k].tagged,
                            payload: rewritten_fields(m[k].payload, upgrade, r@),
                        }),
                decreases vs.len() - i,
            {
                let v = &vs[i];
                out.push(
                    Variant {
                        name: v.name.clone(),
                        tagged: v.tagged,
                        payload: rewrite_fields(&v.payload, upgrade, r),
                    },
                );
                i += 1;
            }
            let out = Body::Union(out);
            assert(variants_model(out->Union_0@) =~= rewritten_body(b@, upgrade, r@)->Union_0);
            out
        },
    }
}

/// Definition `d` rewritten with `r`; `required` says whether it is in `r`.
pub fn rewrite_type(d: &TypeDef, required: bool, r: &Vec<bool>) -> (out: TypeDef)
    ensures
        out@ == rewritten_type(d@, required, r@),
{
    let out = TypeDef {
        name: d.name.clone(),
        params: copy_names(&d.params),
        body: rewrite_body(&d.body, required, r),
        deserializable: d.deserializable,
        scoped: d.scoped || required,
    };
    assert(out@.params =~= d@.params);
    out
}

/// Behavior block `b` rewritten with `r`.
pub fn rewrite_behavior(b: &Behavior, r: &Vec<bool>) -> (out: Behavior)
    ensures
        out@ == rewritten_behavior(b@, r@),
{
    let (contract, contract_scoped) = match &b.contract {
        Some(c) => (Some(complete_usages(c, r)), names_member(c, r)),
        None => (None, false),
    };
    Behavior {
        subject: complete_usages(&b.subject, r),
        contract,
        scoped: b.scoped || names_member(&b.subject, r) || contract_scoped,
    }
}

/// The rewrite of one pass, for requirement set `r`: every definition of `r`
/// gains the view-scope parameter and views for its text leaves, and every
/// usage site and behavior block that names a type of `r` supplies the scope.
pub fn rewrite_graph(g: &Graph, r: &Vec<bool>) -> (out: Graph)
    ensures
        out@ == rewritten_graph(g@, r@),
{
    let mut types: Vec<TypeDef> = Vec::new();
    let mut t: usize = 0;
    while t < g.types.len()
        invariant
            0 <= t <= g.types@.len(),
            types@.len() == t,
            forall|k: int|
                0 <= k < t ==> #[trigger] types@[k]@ == rewritten_type(
                    g.types@[k]@,
                    member(r@, k),
                    r@,
                ),
        decreases g.types.len() - t,
    {
        types.push(rewrite_type(&g.types[t], is_member(r, t), r));
        t += 1;
    }
    let mut behaviors: Vec<Behavior> = Vec::new();
    let mut i: usize = 0;
    while i < g.behaviors.len()
        invariant
            0 <= i <= g.behaviors@.len(),
            behaviors@.len() == i,
            forall|k: int|
                0 <= k < i ==> #[trigger] behaviors@[k]@ == rewritten_behavior(
                    g.behaviors@[k]@,
                    r@,
                ),
        decreases g.behaviors.len() - i,
    {
        behaviors.push(rewrite_behavior(&g.behaviors[i], r));
        i += 1;
    }
    let out = Graph { types, behaviors };
    assert(out@.types =~= rewritten_graph(g@, r@).types);
    assert(out@.behaviors =~= rewritten_graph(g@, r@).behaviors);
    out
}

/// The outcome of propagation: the rewritten graph, the requirement set, and
/// the number of passes of upgrade that it took to settle.
pub struct Propagation {
    pub graph: Graph,
    pub required: Vec<bool>,
    pub passes: usize,
}

/// Propagates the view scope through `g`, with the types marked in `x`
/// excluded. Each pass classifies the current graph and grows the
/// requirement set (phase A), then rewrites the graph for it: definitions of
/// the set gain the view-scope parameter and views for their text leaves, and
/// every usage site and behavior block that names a type of the set supplies
/// the scope (phase B). Passes stop once one grows nothing, or once every
/// type is required.
pub fn propagate(g: &Graph, x: &Vec<bool>) -> (p: Propagation)
    ensures
        propagated(g@, x@, p.graph@, p.required@),
        p.required@.len() == g.types@.len(),
        forall|t: int| member(x@, t) ==> !#[trigger] member(p.required@, t),
        p.passes <= g.types@.len(),
{
    let n = g.types.len();
    let mut r: Vec<bool> = Vec::new();
    let mut t: usize = 0;
    while t < n
        invariant
            0 <= t <= n,
            r@.len() == t,
            forall|k: int| 0 <= k < t ==> !#[trigger] r@[k],
        decreases n - t,
    {
        r.push(false);
        t += 1;
    }
    assert forall|s: Seq<bool>| #[trigger] closed(g@, x@, s) implies subset(r@, s) by {}
    proof {
        lemma_count_none(r@);
    }
    let mut h = rewrite_graph(g, &r);
    assert(h.types@.len() == h@.types.len());
    let mut found: usize = 0;
    let mut passes: usize = 0;
    loop
        invariant_except_break
            passes <= found,
        invariant
            n == g.types@.len(),
            r@.len() == n,
            found == count(r@),
            found <= n,
            passes <= n,
            below_every_closed(g@, x@, r@),
            h@ == rewritten_graph(g@, r@),
            h.types@.len() == n,
        ensures
            closed(g@, x@, r@),
        decreases n - found,
    {
        if found == n {
            proof {
                lemma_count(r@, r@);
            }
            assert forall|t: int| #[trigger] type_requires(g@, x@, r@, t) implies member(r@, t) by {}
            break;
        }
        let next = grow_requirements(&h, x, &r);
        proof {
            lemma_step_on_rewritten(g@, x@, r@);
        }
        passes += 1;
        let mut k: usize = 0;
        let mut grown: usize = 0;
        while k < n
            invariant
                0 <= k <= n,
                n == g.types@.len(),
                next@.len() == n,
                grown == count(next@.subrange(0, k as int)),
                grown <= k,
            decreases n - k,
        {
            assert(next@.subrange(0, k + 1).drop_last() =~= next@.subrange(0, k as int));
            if next[k] {
                grown += 1;
            }
            k += 1;
        }
        assert(next@.subrange(0, n as int) =~= next@);
        proof {
            lemma_step_monotone(g@, x@, r@);
            lemma_step_below_closed(g@, x@, r@);
            lemma_count(r@, next@);
        }
        if grown == found {
            assert forall|t: int| #[trigger] type_requires(g@, x@, r@, t) implies member(r@, t) by {
                if !member(r@, t) {
                    assert(next@[t]);
                }
            }
            break;
        }
        h = rewrite_graph(&h, &next);
        proof {
            lemma_rewrite_compose(g@, r@, next@);
        }
        assert(h.types@.len() == h@.types.len());
        r = next;
        found = grown;
    }
    proof {
        lemma_excluded_never_required(g@, x@, r@);
    }
    Propagation { graph: h, required: r, passes }
}

/// No type excluded by `x` is ever in the least closed requirement set.
pub proof fn lemma_excluded_never_required(g: GraphModel, x: Seq<bool>, r: Seq<bool>)
    requires
        least_closed(g, x, r),
    ensures
        forall|t: int| member(x, t) ==> !#[trigger] member(r, t),
{
    let all = Seq::new(g.types.len(), |t: int| eligible(g, x, t));
    assert(closed(g, x, all));
}


/// The exclusion set of `g` for the type names `names`: the types whose name
/// is one of them.
pub open spec fn excluded_by(g: GraphModel, names: Seq<String>) -> Seq<bool> {
    Seq::new(
        g.types.len(),
        |t: int| exists|i: int| 0 <= i < names.len() && #[trigger] names[i]@ == g.types[t].name,
    )
}

/// The exclusion set of `g` for the type names `names`.
pub fn exclusion_mask(g: &Graph, names: &Vec<String>) -> (x: Vec<bool>)
    ensures
        x@ == excluded_by(g@, names@),
{
    let mut x: Vec<bool> = Vec::new();
    let mut t: usize = 0;
    while t < g.types.len()
        invariant
            0 <= t <= g.types@.len(),
            x@.len() == t,
            forall|k: int| 0 <= k < t ==> #[trigger] x@[k] == excluded_by(g@, names@)[k],
        decreases g.types.len() - t,
    {
        let mut hit = false;
        let mut i: usize = 0;
        while i < names.len()
            invariant
                0 <= i <= names@.len(),
                t < g.types@.len(),
                hit == exists|j: int| 0 <= j < i && #[trigger] names@[j]@ == g.types@[t as int].name@,
            decreases names.len() - i,
        {
            if names[i] == g.types[t].name {
                hit = true;
            }
            i += 1;
        }
        assert(g@.types[t as int].name == g.types@[t as int].name@);
        x.push(hit);
        t += 1;
    }
    assert(x@ =~= excluded_by(g@, names@));
    x
}

/// Propagates the view scope through `g`, with the types named in `excluded`
/// kept out of it.
pub fn propagate_excluding(g: &Graph, excluded: &Vec<String>) -> (p: Propagation)
    ensures
        propagated(g@, excluded_by(g@, excluded@), p.graph@, p.required@),
        p.required@.len() == g.types@.len(),
        forall|t: int|
            member(excluded_by(g@, excluded@), t) ==> !#[trigger] member(p.required@, t),
        p.passes <= g.types@.len(),
{
    let x = exclusion_mask(g, excluded);
    propagate(g, &x)
}

} // verus!
