//! What holds of propagation as a whole: re-running it changes nothing, its
//! result is closed under references, and the rewrites of successive passes
//! add up to one rewrite for the final requirement set.

use vstd::prelude::*;
use crate::classify::{
    lemma_completed_compose, lemma_completed_idempotent, lemma_completed_keeps,
    lemma_rewritten_field_compose, lemma_rewritten_field_idempotent, lemma_rewritten_field_requires,
};
use crate::graph::{
    field_requires, lemma_names_mentions, member, mentions, names, BehaviorModel, BodyModel,
    FieldModel, GraphModel, TypeRef,
};
use crate::propagate::{
    body_requires, closed, eligible, fields_require, least_closed, lemma_mentions_monotone, step,
    propagated, rewritten_behavior, rewritten_body, rewritten_fields, rewritten_graph, subset,
    type_requires,
};

verus! {

/// A body that requires the scope given `s` still does once rewritten; one
/// rewritten without upgrade requires it exactly when it did before.
pub proof fn lemma_rewritten_body_requires(b: BodyModel, upgrade: bool, r: Seq<bool>, s: Seq<bool>)
    ensures
        body_requires(b, s) ==> body_requires(rewritten_body(b, upgrade, r), s),
        !upgrade ==> body_requires(rewritten_body(b, upgrade, r), s) == body_requires(b, s),
{
    match b {
        BodyModel::Record(fs) => lemma_rewritten_fields_require(fs, upgrade, r, s),
        BodyModel::Union(vs) => {
            let ws = rewritten_body(b, upgrade, r)->Union_0;
            assert forall|i: int| 0 <= i < vs.len() implies {
                &&& fields_require(vs[i].payload, s) ==> fields_require(#[trigger] ws[i].payload, s)
                &&& !upgrade ==> fields_require(ws[i].payload, s) == fields_require(
                    vs[i].payload,
                    s,
                )
            } by {
                lemma_rewritten_fields_require(vs[i].payload, upgrade, r, s);
            }
            if body_requires(b, s) {
                let i = choose|i: int| 0 <= i < vs.len() && fields_require(#[trigger] vs[i].payload, s);
                assert(fields_require(ws[i].payload, s));
            }
            if !upgrade && body_requires(rewritten_body(b, upgrade, r), s) {
                let i = choose|i: int| 0 <= i < ws.len() && fields_require(#[trigger] ws[i].payload, s);
                assert(fields_require(vs[i].payload, s));
            }
        },
    }
}

/// The fields-level counterpart of [`lemma_rewritten_body_requires`].
proof fn lemma_rewritten_fields_require(
    fs: Seq<FieldModel>,
    upgrade: bool,
    r: Seq<bool>,
    s: Seq<bool>,
)
    ensures
        fields_require(fs, s) ==> fields_require(rewritten_fields(fs, upgrade, r), s),
        !upgrade ==> fields_require(rewritten_fields(fs, upgrade, r), s) == fields_require(fs, s),
{
    let gs = rewritten_fields(fs, upgrade, r);
    if fields_require(fs, s) {
        let i = choose|i: int| 0 <= i < fs.len() && field_requires(#[trigger] fs[i].ty, s);
        lemma_rewritten_field_requires(fs[i], upgrade, r, s);
        assert(field_requires(gs[i].ty, s));
    }
    if !upgrade && fields_require(gs, s) {
        let i = choose|i: int| 0 <= i < gs.len() && field_requires(#[trigger] gs[i].ty, s);
        lemma_rewritten_field_requires(fs[i], upgrade, r, s);
        assert(field_requires(fs[i].ty, s));
    }
}

/// Rewriting a body twice with the same set is rewriting it once.
pub proof fn lemma_rewritten_body_idempotent(b: BodyModel, upgrade: bool, r: Seq<bool>)
    ensures
        rewritten_body(rewritten_body(b, upgrade, r), upgrade, r) == rewritten_body(b, upgrade, r),
{
    match b {
        BodyModel::Record(fs) => lemma_rewritten_fields_idempotent(fs, upgrade, r),
        BodyModel::Union(vs) => {
            let once = rewritten_body(b, upgrade, r)->Union_0;
            let twice = rewritten_body(rewritten_body(b, upgrade, r), upgrade, r)->Union_0;
            assert forall|i: int| 0 <= i < vs.len() implies #[trigger] twice[i] == once[i] by {
                lemma_rewritten_fields_idempotent(vs[i].payload, upgrade, r);
            }
            assert(twice =~= once);
        },
    }
}

/// Rewriting fields twice with the same set is rewriting them once.
proof fn lemma_rewritten_fields_idempotent(
    fs: Seq<FieldModel>,
    upgrade: bool,
    r: Seq<bool>,
)
    ensures
        rewritten_fields(rewritten_fields(fs, upgrade, r), upgrade, r) == rewritten_fields(
            fs,
            upgrade,
            r,
        ),
{
    let once = rewritten_fields(fs, upgrade, r);
    let twice = rewritten_fields(once, upgrade, r);
    assert forall|i: int| 0 <= i < fs.len() implies #[trigger] twice[i] == once[i] by {
        lemma_rewritten_field_idempotent(fs[i], upgrade, r);
    }
    assert(twice =~= once);
}

/// Rewriting a behavior block twice with the same set is rewriting it once.
pub proof fn lemma_rewritten_behavior_idempotent(b: BehaviorModel, r: Seq<bool>)
    ensures
        rewritten_behavior(rewritten_behavior(b, r), r) == rewritten_behavior(b, r),
{
    lemma_completed_idempotent(b.subject, r);
    lemma_completed_keeps(b.subject, r, r);
    match b.contract {
        Some(c) => {
            lemma_completed_idempotent(c, r);
            lemma_completed_keeps(c, r, r);
        },
        None => {},
    }
}

/// The requirement set stays the least closed one of the rewritten graph.
pub proof fn lemma_rewrite_keeps_fixpoint(g: GraphModel, x: Seq<bool>, r: Seq<bool>)
    requires
        least_closed(g, x, r),
    ensures
        least_closed(rewritten_graph(g, r), x, r),
{
    let h = rewritten_graph(g, r);
    assert forall|t: int| #[trigger] type_requires(h, x, r, t) implies member(r, t) by {
        if !member(r, t) {
            lemma_rewritten_body_requires(g.types[t].body, false, r, r);
            assert(type_requires(g, x, r, t));
        }
    }
    assert forall|s: Seq<bool>| #[trigger] closed(h, x, s) implies subset(r, s) by {
        assert forall|t: int| #[trigger] type_requires(g, x, s, t) implies member(s, t) by {
            lemma_rewritten_body_requires(g.types[t].body, member(r, t), r, s);
            assert(type_requires(h, x, s, t));
        }
        assert(closed(g, x, s));
    }
}

/// There is one least closed requirement set.
pub proof fn lemma_least_closed_unique(g: GraphModel, x: Seq<bool>, a: Seq<bool>, b: Seq<bool>)
    requires
        least_closed(g, x, a),
        least_closed(g, x, b),
    ensures
        a == b,
{
    assert(subset(a, b) && subset(b, a));
    assert forall|t: int| 0 <= t < a.len() implies a[t] == b[t] by {
        assert(member(a, t) ==> member(b, t));
        assert(member(b, t) ==> member(a, t));
    }
    assert(a =~= b);
}

/// Idempotence: propagating again over a graph that propagation produced
/// finds the same requirement set and rewrites nothing more.
pub proof fn lemma_propagation_idempotent(
    g: GraphModel,
    x: Seq<bool>,
    first: GraphModel,
    first_required: Seq<bool>,
    second: GraphModel,
    second_required: Seq<bool>,
)
    requires
        propagated(g, x, first, first_required),
        propagated(first, x, second, second_required),
    ensures
        second_required == first_required,
        second == first,
{
    let r = first_required;
    lemma_rewrite_keeps_fixpoint(g, x, r);
    lemma_least_closed_unique(first, x, r, second_required);
    let twice = rewritten_graph(first, r);
    assert forall|t: int| 0 <= t < first.types.len() implies #[trigger] twice.types[t]
        == first.types[t] by {
        lemma_rewritten_body_idempotent(g.types[t].body, member(r, t), r);
    }
    assert forall|i: int| 0 <= i < first.behaviors.len() implies #[trigger] twice.behaviors[i]
        == first.behaviors[i] by {
        lemma_rewritten_behavior_idempotent(g.behaviors[i], r);
    }
    assert(twice.types =~= first.types);
    assert(twice.behaviors =~= first.behaviors);
}

/// Whether a body has a field (or a variant payload) of type `ty`.
pub open spec fn has_field(b: BodyModel, ty: TypeRef) -> bool {
    match b {
        BodyModel::Record(fs) => exists|i: int| 0 <= i < fs.len() && #[trigger] fs[i].ty == ty,
        BodyModel::Union(vs) => exists|i: int, j: int|
            0 <= i < vs.len() && 0 <= j < vs[i].payload.len() && #[trigger] vs[i].payload[j].ty
                == ty,
    }
}

/// Closure: at the fixpoint, a type that may require the scope and has a field
/// referring to a required type is itself required.
pub proof fn lemma_closure(g: GraphModel, x: Seq<bool>, r: Seq<bool>, t: int, ty: TypeRef, u: int)
    requires
        least_closed(g, x, r),
        eligible(g, x, t),
        has_field(g.types[t].body, ty),
        names(ty, u),
        member(r, u),
    ensures
        member(r, t),
{
    lemma_names_mentions(ty, u, r);
    match g.types[t].body {
        BodyModel::Record(fs) => {
            let i = choose|i: int| 0 <= i < fs.len() && #[trigger] fs[i].ty == ty;
            assert(field_requires(fs[i].ty, r));
        },
        BodyModel::Union(vs) => {
            let (i, j) = choose|i: int, j: int|
                0 <= i < vs.len() && 0 <= j < vs[i].payload.len() && #[trigger] vs[i].payload[j].ty
                    == ty;
            assert(field_requires(vs[i].payload[j].ty, r));
            assert(fields_require(vs[i].payload, r));
        },
    }
    assert(type_requires(g, x, r, t));
}


/// Rewriting fields for a set and then for a larger one is rewriting them
/// once for the larger one.
proof fn lemma_rewritten_fields_compose(
    fs: Seq<FieldModel>,
    upgrade_a: bool,
    upgrade_b: bool,
    a: Seq<bool>,
    b: Seq<bool>,
)
    requires
        upgrade_a ==> upgrade_b,
        subset(a, b),
    ensures
        rewritten_fields(rewritten_fields(fs, upgrade_a, a), upgrade_b, b) == rewritten_fields(
            fs,
            upgrade_b,
            b,
        ),
{
    let once = rewritten_fields(fs, upgrade_b, b);
    let twice = rewritten_fields(rewritten_fields(fs, upgrade_a, a), upgrade_b, b);
    assert forall|i: int| 0 <= i < fs.len() implies #[trigger] twice[i] == once[i] by {
        lemma_rewritten_field_compose(fs[i], upgrade_a, upgrade_b, a, b);
    }
    assert(twice =~= once);
}

/// Rewriting a body for a set and then for a larger one is rewriting it once
/// for the larger one.
pub proof fn lemma_rewritten_body_compose(
    body: BodyModel,
    upgrade_a: bool,
    upgrade_b: bool,
    a: Seq<bool>,
    b: Seq<bool>,
)
    requires
        upgrade_a ==> upgrade_b,
        subset(a, b),
    ensures
        rewritten_body(rewritten_body(body, upgrade_a, a), upgrade_b, b) == rewritten_body(
            body,
            upgrade_b,
            b,
        ),
{
    match body {
        BodyModel::Record(fs) => lemma_rewritten_fields_compose(fs, upgrade_a, upgrade_b, a, b),
        BodyModel::Union(vs) => {
            let once = rewritten_body(body, upgrade_b, b)->Union_0;
            let twice = rewritten_body(rewritten_body(body, upgrade_a, a), upgrade_b, b)->Union_0;
            assert forall|i: int| 0 <= i < vs.len() implies #[trigger] twice[i] == once[i] by {
                lemma_rewritten_fields_compose(vs[i].payload, upgrade_a, upgrade_b, a, b);
            }
            assert(twice =~= once);
        },
    }
}

/// Rewriting a behavior block for a set and then for a larger one is
/// rewriting it once for the larger one.
pub proof fn lemma_rewritten_behavior_compose(bh: BehaviorModel, a: Seq<bool>, b: Seq<bool>)
    requires
        subset(a, b),
    ensures
        rewritten_behavior(rewritten_behavior(bh, a), b) == rewritten_behavior(bh, b),
{
    lemma_completed_compose(bh.subject, a, b);
    lemma_completed_keeps(bh.subject, a, b);
    if mentions(bh.subject, a) {
        lemma_mentions_monotone(bh.subject, a, b);
    }
    match bh.contract {
        Some(c) => {
            lemma_completed_compose(c, a, b);
            lemma_completed_keeps(c, a, b);
            if mentions(c, a) {
                lemma_mentions_monotone(c, a, b);
            }
        },
        None => {},
    }
}

/// Rewriting a graph for a requirement set and then for a larger one is
/// rewriting it once for the larger one.
pub proof fn lemma_rewrite_compose(g: GraphModel, a: Seq<bool>, b: Seq<bool>)
    requires
        subset(a, b),
    ensures
        rewritten_graph(rewritten_graph(g, a), b) == rewritten_graph(g, b),
{
    let once = rewritten_graph(g, b);
    let twice = rewritten_graph(rewritten_graph(g, a), b);
    assert forall|t: int| 0 <= t < g.types.len() implies #[trigger] twice.types[t]
        == once.types[t] by {
        lemma_rewritten_body_compose(g.types[t].body, member(a, t), member(b, t), a, b);
    }
    assert forall|i: int| 0 <= i < g.behaviors.len() implies #[trigger] twice.behaviors[i]
        == once.behaviors[i] by {
        lemma_rewritten_behavior_compose(g.behaviors[i], a, b);
    }
    assert(twice.types =~= once.types);
    assert(twice.behaviors =~= once.behaviors);
}

/// Classifying the graph rewritten for `r` grows `r` as classifying the
/// input graph does.
pub proof fn lemma_step_on_rewritten(g: GraphModel, x: Seq<bool>, r: Seq<bool>)
    ensures
        step(rewritten_graph(g, r), x, r) == step(g, x, r),
{
    let h = rewritten_graph(g, r);
    assert forall|t: int| 0 <= t < g.types.len() implies #[trigger] step(h, x, r)[t] == step(
        g,
        x,
        r,
    )[t] by {
        lemma_rewritten_body_requires(g.types[t].body, false, r, r);
    }
    assert(step(h, x, r) =~= step(g, x, r));
}

} // verus!
