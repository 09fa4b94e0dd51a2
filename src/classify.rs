//! The view classifier: which references make a type require the view scope,
//! and how a field is rewritten once its container has it.

use vstd::prelude::*;
use crate::graph::{
    args_have_scoped, args_have_text, args_have_view, args_mention, has_scoped, has_view, member,
    mentions, text_leaf, field_requires, Field, FieldModel, TypeArgs, TypeRef,
};

verus! {

/// `ty` with its text leaf turned into a view: owned text itself, or owned
/// text directly inside one level of a generic wrapper. Deeper text and a
/// free-form JSON object stay as they are.
pub open spec fn upgraded(ty: TypeRef) -> TypeRef {
    match ty {
        TypeRef::Text => TypeRef::TextView,
        TypeRef::Optional(inner) => TypeRef::Optional(Box::new(upgraded_arg(*inner))),
        TypeRef::Sequence(inner) => TypeRef::Sequence(Box::new(upgraded_arg(*inner))),
        TypeRef::Mapping(inner) => TypeRef::Mapping(Box::new(upgraded_arg(*inner))),
        TypeRef::Named { target, scoped, args } => TypeRef::Named {
            target,
            scoped,
            args: upgraded_args(args),
        },
        _ => ty,
    }
}

/// A generic argument with owned text turned into a view; any other argument
/// as it is.
pub open spec fn upgraded_arg(ty: TypeRef) -> TypeRef {
    if ty is Text {
        TypeRef::TextView
    } else {
        ty
    }
}

/// Each argument of `a` through [`upgraded_arg`].
pub open spec fn upgraded_args(a: TypeArgs) -> TypeArgs
    decreases a,
{
    match a {
        TypeArgs::Nil => TypeArgs::Nil,
        TypeArgs::Cons(head, tail) => TypeArgs::Cons(
            Box::new(upgraded_arg(*head)),
            Box::new(upgraded_args(*tail)),
        ),
    }
}

/// `ty` with every reference to a type of `r`, at any depth, supplying the
/// view scope.
pub open spec fn completed(ty: TypeRef, r: Seq<bool>) -> TypeRef
    decreases ty,
{
    match ty {
        TypeRef::Optional(inner) => TypeRef::Optional(Box::new(completed(*inner, r))),
        TypeRef::Sequence(inner) => TypeRef::Sequence(Box::new(completed(*inner, r))),
        TypeRef::Mapping(inner) => TypeRef::Mapping(Box::new(completed(*inner, r))),
        TypeRef::Named { target, scoped, args } => TypeRef::Named {
            target,
            scoped: scoped || member(r, target as int),
            args: completed_args(args, r),
        },
        _ => ty,
    }
}

/// Each argument of `a` through [`completed`].
pub open spec fn completed_args(a: TypeArgs, r: Seq<bool>) -> TypeArgs
    decreases a,
{
    match a {
        TypeArgs::Nil => TypeArgs::Nil,
        TypeArgs::Cons(head, tail) => TypeArgs::Cons(
            Box::new(completed(*head, r)),
            Box::new(completed_args(*tail, r)),
        ),
    }
}

/// Whether a field of type `ty` needs the borrow attribute: it holds a view or
/// a scoped reference somewhere, without being a view itself.
pub open spec fn needs_borrow(ty: TypeRef) -> bool {
    !(ty is TextView) && (has_view(ty) || has_scoped(ty))
}

/// Field `f` after rewriting with requirement set `r`. Each reference gets
/// its view scope; where the container requires the scope (`upgrade`), text
/// leaves become views and the borrow attribute is added where needed, once.
pub open spec fn rewritten_field(f: FieldModel, upgrade: bool, r: Seq<bool>) -> FieldModel {
    let ty = if upgrade {
        completed(upgraded(f.ty), r)
    } else {
        completed(f.ty, r)
    };
    FieldModel { name: f.name, ty, borrow: f.borrow || (upgrade && needs_borrow(ty)) }
}

/// Whether the type at index `t` is in the set `r`.
pub fn is_member(r: &Vec<bool>, t: usize) -> (b: bool)
    ensures
        b == member(r@, t as int),
{
    t < r.len() && r[t]
}

/// Whether `ty` names, at any depth, a type of `r`.
pub fn names_member(ty: &TypeRef, r: &Vec<bool>) -> (b: bool)
    ensures
        b == mentions(*ty, r@),
    decreases ty,
{
    match ty {
        TypeRef::Optional(inner) => names_member(inner, r),
        TypeRef::Sequence(inner) => names_member(inner, r),
        TypeRef::Mapping(inner) => names_member(inner, r),
        TypeRef::Named { target, scoped: _, args } => is_member(r, *target) || args_name_member(args, r),
        _ => false,
    }
}

/// Whether one of the arguments `a` names, at any depth, a type of `r`.
pub fn args_name_member(a: &TypeArgs, r: &Vec<bool>) -> (b: bool)
    ensures
        b == args_mention(*a, r@),
    decreases a,
{
    match a {
        TypeArgs::Nil => false,
        TypeArgs::Cons(head, tail) => names_member(head, r) || args_name_member(tail, r),
    }
}


/// Whether `ty` holds, at any depth, borrowed text.
pub fn holds_view(ty: &TypeRef) -> (b: bool)
    ensures
        b == has_view(*ty),
    decreases ty,
{
    match ty {
        TypeRef::TextView => true,
        TypeRef::Optional(inner) => holds_view(inner),
        TypeRef::Sequence(inner) => holds_view(inner),
        TypeRef::Mapping(inner) => holds_view(inner),
        TypeRef::Named { target: _, scoped: _, args } => args_hold_view(args),
        _ => false,
    }
}

/// Whether one of the arguments `a` holds, at any depth, borrowed text.
pub fn args_hold_view(a: &TypeArgs) -> (b: bool)
    ensures
        b == args_have_view(*a),
    decreases a,
{
    match a {
        TypeArgs::Nil => false,
        TypeArgs::Cons(head, tail) => holds_view(head) || args_hold_view(tail),
    }
}

/// Whether `ty` holds, at any depth, a reference that supplies the view scope.
pub fn holds_scoped(ty: &TypeRef) -> (b: bool)
    ensures
        b == has_scoped(*ty),
    decreases ty,
{
    match ty {
        TypeRef::Optional(inner) => holds_scoped(inner),
        TypeRef::Sequence(inner) => holds_scoped(inner),
        TypeRef::Mapping(inner) => holds_scoped(inner),
        TypeRef::Named { target: _, scoped, args } => *scoped || args_hold_scoped(args),
        _ => false,
    }
}

/// Whether one of the arguments `a` holds, at any depth, a scoped reference.
pub fn args_hold_scoped(a: &TypeArgs) -> (b: bool)
    ensures
        b == args_have_scoped(*a),
    decreases a,
{
    match a {
        TypeArgs::Nil => false,
        TypeArgs::Cons(head, tail) => holds_scoped(head) || args_hold_scoped(tail),
    }
}

/// Whether one of the arguments `a` is owned text.
fn args_hold_text(a: &TypeArgs) -> (b: bool)
    ensures
        b == args_have_text(*a),
    decreases a,
{
    match a {
        TypeArgs::Nil => false,
        TypeArgs::Cons(head, tail) => matches!(**head, TypeRef::Text) || args_hold_text(tail),
    }
}

/// Whether `ty` is a text leaf that becomes a view.
pub fn is_text_leaf(ty: &TypeRef) -> (b: bool)
    ensures
        b == text_leaf(*ty),
{
    match ty {
        TypeRef::Text => true,
        TypeRef::Optional(inner) => matches!(**inner, TypeRef::Text),
        TypeRef::Sequence(inner) => matches!(**inner, TypeRef::Text),
        TypeRef::Mapping(inner) => matches!(**inner, TypeRef::Text),
        TypeRef::Named { target: _, scoped: _, args } => args_hold_text(args),
        _ => false,
    }
}

/// Whether a field of type `ty` makes its container require the view scope,
/// given the requirement set `r`.
pub fn classify_field(ty: &TypeRef, r: &Vec<bool>) -> (b: bool)
    ensures
        b == field_requires(*ty, r@),
{
    is_text_leaf(ty) || holds_view(ty) || names_member(ty, r)
}

/// A copy of `ty`.
pub fn copy_type(ty: &TypeRef) -> (out: TypeRef)
    ensures
        out == *ty,
    decreases ty,
{
    match ty {
        TypeRef::Text => TypeRef::Text,
        TypeRef::TextView => TypeRef::TextView,
        TypeRef::Numeric => TypeRef::Numeric,
        TypeRef::Boolean => TypeRef::Boolean,
        TypeRef::Optional(inner) => TypeRef::Optional(Box::new(copy_type(inner))),
        TypeRef::Sequence(inner) => TypeRef::Sequence(Box::new(copy_type(inner))),
        TypeRef::Mapping(inner) => TypeRef::Mapping(Box::new(copy_type(inner))),
        TypeRef::JsonMap => TypeRef::JsonMap,
        TypeRef::Named { target, scoped, args } => TypeRef::Named {
            target: *target,
            scoped: *scoped,
            args: copy_args(args),
        },
    }
}

/// A copy of `a`.
pub fn copy_args(a: &TypeArgs) -> (out: TypeArgs)
    ensures
        out == *a,
    decreases a,
{
    match a {
        TypeArgs::Nil => TypeArgs::Nil,
        TypeArgs::Cons(head, tail) => TypeArgs::Cons(
            Box::new(copy_type(head)),
            Box::new(copy_args(tail)),
        ),
    }
}

/// A generic argument with owned text turned into a view.
fn upgrade_arg(ty: &TypeRef) -> (out: TypeRef)
    ensures
        out == upgraded_arg(*ty),
{
    match ty {
        TypeRef::Text => TypeRef::TextView,
        _ => copy_type(ty),
    }
}

/// Each argument of `a` with owned text turned into a view.
fn upgrade_args(a: &TypeArgs) -> (out: TypeArgs)
    ensures
        out == upgraded_args(*a),
    decreases a,
{
    match a {
        TypeArgs::Nil => TypeArgs::Nil,
        TypeArgs::Cons(head, tail) => TypeArgs::Cons(
            Box::new(upgrade_arg(head)),
            Box::new(upgrade_args(tail)),
        ),
    }
}

/// `ty` with its text leaf turned into a view.
pub fn upgrade_leaf(ty: &TypeRef) -> (out: TypeRef)
    ensures
        out == upgraded(*ty),
{
    match ty {
        TypeRef::Text => TypeRef::TextView,
        TypeRef::Optional(inner) => TypeRef::Optional(Box::new(upgrade_arg(inner))),
        TypeRef::Sequence(inner) => TypeRef::Sequence(Box::new(upgrade_arg(inner))),
        TypeRef::Mapping(inner) => TypeRef::Mapping(Box::new(upgrade_arg(inner))),
        TypeRef::Named { target, scoped, args } => TypeRef::Named {
            target: *target,
            scoped: *scoped,
            args: upgrade_args(args),
        },
        _ => copy_type(ty),
    }
}

/// `ty` with every reference to a type of `r` supplying the view scope.
pub fn complete_usages(ty: &TypeRef, r: &Vec<bool>) -> (out: TypeRef)
    ensures
        out == completed(*ty, r@),
    decreases ty,
{
    match ty {
        TypeRef::Optional(inner) => TypeRef::Optional(Box::new(complete_usages(inner, r))),
        TypeRef::Sequence(inner) => TypeRef::Sequence(Box::new(complete_usages(inner, r))),
        TypeRef::Mapping(inner) => TypeRef::Mapping(Box::new(complete_usages(inner, r))),
        TypeRef::Named { target, scoped, args } => TypeRef::Named {
            target: *target,
            scoped: *scoped || is_member(r, *target),
            args: complete_args(args, r),
        },
        _ => copy_type(ty),
    }
}

/// Each argument of `a` with every reference to a type of `r` scoped.
pub fn complete_args(a: &TypeArgs, r: &Vec<bool>) -> (out: TypeArgs)
    ensures
        out == completed_args(*a, r@),
    decreases a,
{
    match a {
        TypeArgs::Nil => TypeArgs::Nil,
        TypeArgs::Cons(head, tail) => TypeArgs::Cons(
            Box::new(complete_usages(head, r)),
            Box::new(complete_args(tail, r)),
        ),
    }
}

/// Field `f` rewritten with requirement set `r`; `upgrade` says whether its
/// container requires the view scope.
pub fn rewrite_field(f: &Field, upgrade: bool, r: &Vec<bool>) -> (out: Field)
    ensures
        out@ == rewritten_field(f@, upgrade, r@),
{
    let ty = if upgrade {
        complete_usages(&upgrade_leaf(&f.ty), r)
    } else {
        complete_usages(&f.ty, r)
    };
    let borrow = f.borrow || (upgrade && !matches!(ty, TypeRef::TextView) && (holds_view(&ty)
        || holds_scoped(&ty)));
    let name = match &f.name {
        Some(n) => Some(n.clone()),
        None => None,
    };
    Field { name, ty, borrow }
}


/// Completing usage sites changes neither the text leaves, nor the views, nor
/// which types are named.
pub proof fn lemma_completed_keeps(ty: TypeRef, r: Seq<bool>, s: Seq<bool>)
    ensures
        text_leaf(completed(ty, r)) == text_leaf(ty),
        has_view(completed(ty, r)) == has_view(ty),
        mentions(completed(ty, r), s) == mentions(ty, s),
        (completed(ty, r) is Text) == (ty is Text),
        (completed(ty, r) is TextView) == (ty is TextView),
    decreases ty,
{
    match ty {
        TypeRef::Optional(inner) => lemma_completed_keeps(*inner, r, s),
        TypeRef::Sequence(inner) => lemma_completed_keeps(*inner, r, s),
        TypeRef::Mapping(inner) => lemma_completed_keeps(*inner, r, s),
        TypeRef::Named { target, scoped, args } => lemma_completed_args_keep(args, r, s),
        _ => {},
    }
}

/// Completing the arguments changes neither their text, nor their views, nor
/// which types they name.
pub proof fn lemma_completed_args_keep(a: TypeArgs, r: Seq<bool>, s: Seq<bool>)
    ensures
        args_have_text(completed_args(a, r)) == args_have_text(a),
        args_have_view(completed_args(a, r)) == args_have_view(a),
        args_mention(completed_args(a, r), s) == args_mention(a, s),
    decreases a,
{
    match a {
        TypeArgs::Nil => {},
        TypeArgs::Cons(head, tail) => {
            lemma_completed_keeps(*head, r, s);
            lemma_completed_args_keep(*tail, r, s);
        },
    }
}

/// Upgrading one argument keeps the named types and the views, and leaves a
/// view where it was text; it commutes with completing usage sites.
pub proof fn lemma_upgraded_arg_keeps(ty: TypeRef, r: Seq<bool>, s: Seq<bool>)
    ensures
        mentions(upgraded_arg(ty), s) == mentions(ty, s),
        ty is Text || has_view(ty) ==> has_view(upgraded_arg(ty)),
        upgraded_arg(completed(ty, r)) == completed(upgraded_arg(ty), r),
        upgraded_arg(upgraded_arg(ty)) == upgraded_arg(ty),
{
    lemma_completed_keeps(ty, r, s);
    if ty is Text {
        assert(mentions(TypeRef::TextView, s) == mentions(TypeRef::Text, s));
        assert(has_view(TypeRef::TextView));
        assert(completed(TypeRef::TextView, r) == TypeRef::TextView);
        assert(completed(TypeRef::Text, r) == TypeRef::Text);
    }
}

/// Upgrading text leaves keeps the named types, keeps every view, and leaves a
/// view wherever there was a text leaf.
pub proof fn lemma_upgraded_keeps(ty: TypeRef, s: Seq<bool>)
    ensures
        mentions(upgraded(ty), s) == mentions(ty, s),
        text_leaf(ty) || has_view(ty) ==> has_view(upgraded(ty)),
{
    match ty {
        TypeRef::Optional(inner) => lemma_upgraded_arg_keeps(*inner, s, s),
        TypeRef::Sequence(inner) => lemma_upgraded_arg_keeps(*inner, s, s),
        TypeRef::Mapping(inner) => lemma_upgraded_arg_keeps(*inner, s, s),
        TypeRef::Named { target, scoped, args } => lemma_upgraded_args_keep(args, s),
        _ => {},
    }
}

/// Upgrading the arguments keeps the named types and the views, and leaves a
/// view where an argument was text.
pub proof fn lemma_upgraded_args_keep(a: TypeArgs, s: Seq<bool>)
    ensures
        args_mention(upgraded_args(a), s) == args_mention(a, s),
        args_have_text(a) || args_have_view(a) ==> args_have_view(upgraded_args(a)),
    decreases a,
{
    match a {
        TypeArgs::Nil => {},
        TypeArgs::Cons(head, tail) => {
            lemma_upgraded_arg_keeps(*head, s, s);
            lemma_upgraded_args_keep(*tail, s);
        },
    }
}

/// Completing usage sites twice is completing them once.
pub proof fn lemma_completed_idempotent(ty: TypeRef, r: Seq<bool>)
    ensures
        completed(completed(ty, r), r) == completed(ty, r),
    decreases ty,
{
    match ty {
        TypeRef::Optional(inner) => lemma_completed_idempotent(*inner, r),
        TypeRef::Sequence(inner) => lemma_completed_idempotent(*inner, r),
        TypeRef::Mapping(inner) => lemma_completed_idempotent(*inner, r),
        TypeRef::Named { target, scoped, args } => lemma_completed_args_idempotent(args, r),
        _ => {},
    }
}

/// Completing the arguments twice is completing them once.
pub proof fn lemma_completed_args_idempotent(a: TypeArgs, r: Seq<bool>)
    ensures
        completed_args(completed_args(a, r), r) == completed_args(a, r),
    decreases a,
{
    match a {
        TypeArgs::Nil => {},
        TypeArgs::Cons(head, tail) => {
            lemma_completed_idempotent(*head, r);
            lemma_completed_args_idempotent(*tail, r);
        },
    }
}

/// Upgrading text leaves twice is upgrading them once.
pub proof fn lemma_upgraded_idempotent(ty: TypeRef)
    ensures
        upgraded(upgraded(ty)) == upgraded(ty),
{
    match ty {
        TypeRef::Optional(inner) => lemma_upgraded_arg_keeps(*inner, Seq::empty(), Seq::empty()),
        TypeRef::Sequence(inner) => lemma_upgraded_arg_keeps(*inner, Seq::empty(), Seq::empty()),
        TypeRef::Mapping(inner) => lemma_upgraded_arg_keeps(*inner, Seq::empty(), Seq::empty()),
        TypeRef::Named { target, scoped, args } => lemma_upgraded_args_idempotent(args),
        _ => {},
    }
}

/// Upgrading the arguments twice is upgrading them once.
pub proof fn lemma_upgraded_args_idempotent(a: TypeArgs)
    ensures
        upgraded_args(upgraded_args(a)) == upgraded_args(a),
    decreases a,
{
    match a {
        TypeArgs::Nil => {},
        TypeArgs::Cons(head, tail) => {
            lemma_upgraded_arg_keeps(*head, Seq::empty(), Seq::empty());
            lemma_upgraded_args_idempotent(*tail);
        },
    }
}

/// Upgrading text leaves and completing usage sites commute.
pub proof fn lemma_upgraded_completed_commute(ty: TypeRef, r: Seq<bool>)
    ensures
        upgraded(completed(ty, r)) == completed(upgraded(ty), r),
{
    match ty {
        TypeRef::Optional(inner) => lemma_upgraded_arg_keeps(*inner, r, r),
        TypeRef::Sequence(inner) => lemma_upgraded_arg_keeps(*inner, r, r),
        TypeRef::Mapping(inner) => lemma_upgraded_arg_keeps(*inner, r, r),
        TypeRef::Named { target, scoped, args } => lemma_upgraded_completed_args_commute(args, r),
        _ => {},
    }
}

/// Upgrading and completing the arguments commute.
pub proof fn lemma_upgraded_completed_args_commute(a: TypeArgs, r: Seq<bool>)
    ensures
        upgraded_args(completed_args(a, r)) == completed_args(upgraded_args(a), r),
    decreases a,
{
    match a {
        TypeArgs::Nil => {},
        TypeArgs::Cons(head, tail) => {
            lemma_upgraded_arg_keeps(*head, r, r);
            lemma_upgraded_completed_args_commute(*tail, r);
        },
    }
}

/// Rewriting a field twice with the same set is rewriting it once.
pub proof fn lemma_rewritten_field_idempotent(f: FieldModel, upgrade: bool, r: Seq<bool>)
    ensures
        rewritten_field(rewritten_field(f, upgrade, r), upgrade, r) == rewritten_field(
            f,
            upgrade,
            r,
        ),
{
    if upgrade {
        let u = upgraded(f.ty);
        lemma_upgraded_completed_commute(u, r);
        lemma_upgraded_idempotent(f.ty);
        lemma_completed_idempotent(u, r);
    } else {
        lemma_completed_idempotent(f.ty, r);
    }
}

/// A field that makes its container require the scope still does once
/// rewritten; one left without upgrade does exactly when it did before.
pub proof fn lemma_rewritten_field_requires(f: FieldModel, upgrade: bool, r: Seq<bool>, s: Seq<bool>)
    ensures
        field_requires(f.ty, s) ==> field_requires(rewritten_field(f, upgrade, r).ty, s),
        !upgrade ==> field_requires(rewritten_field(f, upgrade, r).ty, s) == field_requires(f.ty, s),
{
    if upgrade {
        lemma_upgraded_keeps(f.ty, s);
        lemma_completed_keeps(upgraded(f.ty), r, s);
    } else {
        lemma_completed_keeps(f.ty, r, s);
    }
}


/// Completing usage sites for a set and then for a larger one is completing
/// them for the larger one; scoped references only grow.
pub proof fn lemma_completed_compose(ty: TypeRef, a: Seq<bool>, b: Seq<bool>)
    requires
        forall|t: int| #[trigger] member(a, t) ==> member(b, t),
    ensures
        completed(completed(ty, a), b) == completed(ty, b),
        has_scoped(completed(ty, a)) ==> has_scoped(completed(ty, b)),
    decreases ty,
{
    match ty {
        TypeRef::Optional(inner) => lemma_completed_compose(*inner, a, b),
        TypeRef::Sequence(inner) => lemma_completed_compose(*inner, a, b),
        TypeRef::Mapping(inner) => lemma_completed_compose(*inner, a, b),
        TypeRef::Named { target, scoped, args } => lemma_completed_args_compose(args, a, b),
        _ => {},
    }
}

/// The arguments' counterpart of [`lemma_completed_compose`].
pub proof fn lemma_completed_args_compose(args: TypeArgs, a: Seq<bool>, b: Seq<bool>)
    requires
        forall|t: int| #[trigger] member(a, t) ==> member(b, t),
    ensures
        completed_args(completed_args(args, a), b) == completed_args(args, b),
        args_have_scoped(completed_args(args, a)) ==> args_have_scoped(completed_args(args, b)),
    decreases args,
{
    match args {
        TypeArgs::Nil => {},
        TypeArgs::Cons(head, tail) => {
            lemma_completed_compose(*head, a, b);
            lemma_completed_args_compose(*tail, a, b);
        },
    }
}

/// Rewriting a field for a set and then for a larger one, upgrading the
/// second time wherever the first, is rewriting it once for the larger set.
pub proof fn lemma_rewritten_field_compose(
    f: FieldModel,
    upgrade_a: bool,
    upgrade_b: bool,
    a: Seq<bool>,
    b: Seq<bool>,
)
    requires
        upgrade_a ==> upgrade_b,
        forall|t: int| #[trigger] member(a, t) ==> member(b, t),
    ensures
        rewritten_field(rewritten_field(f, upgrade_a, a), upgrade_b, b) == rewritten_field(
            f,
            upgrade_b,
            b,
        ),
{
    let u = upgraded(f.ty);
    lemma_upgraded_idempotent(f.ty);
    lemma_upgraded_completed_commute(u, a);
    lemma_upgraded_completed_commute(f.ty, a);
    lemma_completed_compose(u, a, b);
    lemma_completed_compose(f.ty, a, b);
    lemma_completed_keeps(u, a, b);
    lemma_completed_keeps(u, b, b);
    lemma_completed_keeps(completed(u, a), b, b);
}

} // verus!
