use vstd::prelude::*;

use crate::context::{has_bound, has_bound_spec, used_lifetimes, Context};
use crate::names::{
    decimal, positional_arg_name, result_future_source, upper_camel_case_ret_future,
    upper_camel_of,
};
use crate::syntax::{ArgType, FnArg, GenericParam, Pat};

verus! {

/// The auto trait that `Self` may have to implement for the future to be
/// `Send`.
#[derive(Copy, Clone, Debug, PartialEq, Eq, Structural)]
pub enum Marker {
    Sync,
    Send,
}

impl Marker {
    pub open spec fn name_spec(self) -> Seq<char> {
        match self {
            Marker::Sync => "Sync"@,
            Marker::Send => "Send"@,
        }
    }

    /// The trait's name.
    pub fn name(self) -> (r: &'static str)
        ensures
            r@ == self.name_spec(),
    {
        match self {
            Marker::Sync => "Sync",
            Marker::Send => "Send",
        }
    }
}

/// A predicate added to the where clause of a rewritten method. Each one
/// bounds its subject by the method's new lifetime `'gat_trait`.
#[derive(Clone, Debug, PartialEq, Eq)]
pub enum WherePredicate {
    /// `P: 'gat_trait + B` for a generic parameter `P` of the method; the
    /// bounds `B` that `P` was declared with move here.
    Param(String),
    /// `'a: 'gat_trait` for a lifetime of the enclosing item that the
    /// arguments use, or for a lifetime that was elided in them.
    Outlives(String),
    /// `Self: 'gat_trait`.
    SelfOutlives,
    /// `Self: ::core::marker::M + 'gat_trait`.
    SelfMarker(Marker),
}

/// What becomes of one argument of the signature.
#[derive(Clone, Debug, PartialEq, Eq)]
pub enum ArgRewrite {
    /// Left as it is (a receiver by reference).
    Keep,
    /// A receiver by value loses its `mut`.
    DropMutability,
    /// A plain binding loses its `ref` and `mut`.
    ClearBinding,
    /// Any other pattern gives way to a fresh name, with `mut` where the
    /// pattern bound some name with `mut`.
    Positional { name: String, mutable: bool },
}

/// A method signature as the rewrite reads it.
#[derive(Clone, Debug, PartialEq, Eq)]
pub struct Signature {
    pub ident: String,
    pub generics: Vec<GenericParam>,
    pub inputs: Vec<FnArg>,
    /// Lifetimes written in the argument types, by name.
    pub explicit_lifetimes: Vec<String>,
    /// The fresh lifetimes given to references whose lifetime was elided,
    /// one for each, in order.
    pub elided_lifetimes: Vec<String>,
}

/// What the rewrite does to a signature, besides turning `async fn f(..) -> R`
/// into `fn f<.., 'gat_trait>(..) -> Self::FResultFuture<'gat_trait>`.
#[derive(Clone, Debug, PartialEq, Eq)]
pub struct SigPlan {
    /// Lifetime parameters appended to the generics before `'gat_trait`.
    pub new_lifetimes: Vec<String>,
    /// Predicates appended to the where clause, in order.
    pub predicates: Vec<WherePredicate>,
    /// One entry for each argument.
    pub args: Vec<ArgRewrite>,
    /// The associated future type's name.
    pub future_name: String,
    /// Whether the future must also be `Send`.
    pub send: bool,
}

/// The predicates that take over the bounds of the method's own type and
/// lifetime parameters; const parameters give none.
pub open spec fn param_predicates(g: Seq<GenericParam>) -> Seq<WherePredicate>
    decreases g.len(),
{
    if g.len() == 0 {
        Seq::empty()
    } else {
        let rest = param_predicates(g.drop_last());
        match g.last() {
            GenericParam::Type(n) => rest.push(WherePredicate::Param(n)),
            GenericParam::Lifetime(n) => rest.push(WherePredicate::Param(n)),
            GenericParam::Const(_) => rest,
        }
    }
}

/// `'a: 'gat_trait` for each lifetime of `ls`.
pub open spec fn outlives_all(ls: Seq<String>) -> Seq<WherePredicate> {
    ls.map_values(|l: String| WherePredicate::Outlives(l))
}

/// The marker that a `Self` captured by the future needs: `Sync` where the
/// first argument borrows `self` shared (`&self`, or `self: &T`), else `Send`.
pub open spec fn self_marker(inputs: Seq<FnArg>) -> Marker {
    if inputs.len() > 0 && match inputs[0] {
        FnArg::Receiver { reference, mutable } => reference && !mutable,
        FnArg::Typed { pat, ty } => pat is Ident && pat->Ident_name@ == "self"@ && ty
            is Reference && !ty->Reference_mutable,
    } {
        Marker::Sync
    } else {
        Marker::Send
    }
}

/// The predicate on `Self`, for a method whose future captures `self`.
/// The marker is left out where the impl, the supertraits or a method
/// without a default body already settle it, or where futures are local.
pub open spec fn self_predicate_spec(
    context: Context,
    inputs: Seq<FnArg>,
    has_default: bool,
    is_local: bool,
) -> WherePredicate {
    let m = self_marker(inputs);
    let assume_bound = match context {
        Context::Trait { super_traits, .. } => !has_default || has_bound_spec(
            super_traits@,
            m.name_spec(),
        ),
        Context::Impl { .. } => true,
    };
    if assume_bound || is_local {
        WherePredicate::SelfOutlives
    } else {
        WherePredicate::SelfMarker(m)
    }
}

/// All predicates of the rewritten signature, in order.
pub open spec fn predicates_spec(
    context: Context,
    sig: Signature,
    has_self: bool,
    has_default: bool,
    is_local: bool,
) -> Seq<WherePredicate> {
    param_predicates(sig.generics@) + outlives_all(
        used_lifetimes(context.generics_spec(), sig.explicit_lifetimes@),
    ) + outlives_all(sig.elided_lifetimes@) + if has_self {
        seq![self_predicate_spec(context, sig.inputs@, has_default, is_local)]
    } else {
        Seq::empty()
    }
}

/// What becomes of the argument `a`; a fresh name is left to `arg_rewrite_ok`.
pub open spec fn arg_rewrite_spec(a: FnArg) -> ArgRewrite {
    match a {
        FnArg::Receiver { reference, .. } => if reference {
            ArgRewrite::Keep
        } else {
            ArgRewrite::DropMutability
        },
        FnArg::Typed { pat, .. } => match pat {
            Pat::Ident { .. } => ArgRewrite::ClearBinding,
            Pat::Wild => ArgRewrite::Positional { name: arbitrary(), mutable: false },
            Pat::Other { has_mut_binding } => ArgRewrite::Positional {
                name: arbitrary(),
                mutable: has_mut_binding,
            },
        },
    }
}

/// Whether `r` is what becomes of the argument `a` at position `i`; a
/// fresh name is `__arg` followed by `i`.
pub open spec fn arg_rewrite_ok(i: int, a: FnArg, r: ArgRewrite) -> bool {
    match arg_rewrite_spec(a) {
        ArgRewrite::Positional { mutable, .. } => r is Positional && r->Positional_mutable
            == mutable && r->Positional_name@ == "__arg"@ + decimal(i as nat),
        other => r == other,
    }
}

/// Whether `r` is the rewrite of the signature `sig`.
pub open spec fn sig_plan_ok(
    context: Context,
    sig: Signature,
    has_self: bool,
    has_default: bool,
    is_local: bool,
    r: SigPlan,
) -> bool {
    &&& r.new_lifetimes@ == sig.elided_lifetimes@
    &&& r.predicates@ == predicates_spec(context, sig, has_self, has_default, is_local)
    &&& r.args@.len() == sig.inputs@.len()
    &&& forall|i: int|
        0 <= i < sig.inputs@.len() ==> arg_rewrite_ok(i, #[trigger] sig.inputs@[i], r.args@[i])
    &&& r.future_name@ == upper_camel_of(result_future_source(sig.ident@))
    &&& r.send == !is_local
}

fn self_predicate(context: &Context, inputs: &Vec<FnArg>, has_default: bool, is_local: bool) -> (r:
    WherePredicate)
    ensures
        r == self_predicate_spec(*context, inputs@, has_default, is_local),
{
    let mut m = Marker::Send;
    if inputs.len() > 0 {
        match &inputs[0] {
            FnArg::Receiver { reference, mutable } => {
                if *reference && !*mutable {
                    m = Marker::Sync;
                }
            },
            FnArg::Typed { pat, ty } => {
                if let Pat::Ident { name, .. } = pat {
                    if let ArgType::Reference { mutable } = ty {
                        if !*mutable && crate::text::str_eq(name.as_str(), "self") {
                            m = Marker::Sync;
                        }
                    }
                }
            },
        }
    }
    assert(m == self_marker(inputs@));
    let assume_bound = match context {
        Context::Trait { super_traits, .. } => !has_default || has_bound(super_traits, m.name()),
        Context::Impl { .. } => true,
    };
    if assume_bound || is_local {
        WherePredicate::SelfOutlives
    } else {
        WherePredicate::SelfMarker(m)
    }
}

fn arg_rewrite(i: usize, a: &FnArg) -> (r: ArgRewrite)
    ensures
        arg_rewrite_ok(i as int, *a, r),
{
    match a {
        FnArg::Receiver { reference, .. } => if *reference {
            ArgRewrite::Keep
        } else {
            ArgRewrite::DropMutability
        },
        FnArg::Typed { pat, .. } => match pat {
            Pat::Ident { .. } => ArgRewrite::ClearBinding,
            Pat::Wild => ArgRewrite::Positional { name: positional_arg_name(i), mutable: false },
            Pat::Other { has_mut_binding } => ArgRewrite::Positional {
                name: positional_arg_name(i),
                mutable: *has_mut_binding,
            },
        },
    }
}

fn push_outlives(preds: &mut Vec<WherePredicate>, ls: &Vec<String>)
    ensures
        final(preds)@ == old(preds)@ + outlives_all(ls@),
{
    let mut i: usize = 0;
    while i < ls.len()
        invariant
            i <= ls@.len(),
            preds@ == old(preds)@ + outlives_all(ls@.subrange(0, i as int)),
        decreases ls@.len() - i,
    {
        assert(outlives_all(ls@.subrange(0, i + 1)) == outlives_all(ls@.subrange(0, i as int)).push(
            WherePredicate::Outlives(ls@[i as int]),
        ));
        preds.push(WherePredicate::Outlives(ls[i].clone()));
        i = i + 1;
    }
    assert(ls@.subrange(0, ls@.len() as int) == ls@);
}

/// Plans the rewrite of an async method's signature: where-clause
/// predicates that tie every borrowed input to `'gat_trait`, the fate of
/// each argument, and the associated future type's name and bounds.
pub fn transform_sig(
    context: &Context,
    sig: &Signature,
    has_self: bool,
    has_default: bool,
    is_local: bool,
) -> (r: SigPlan)
    ensures
        sig_plan_ok(*context, *sig, has_self, has_default, is_local, r),
{
    let mut predicates: Vec<WherePredicate> = Vec::new();
    let mut i: usize = 0;
    while i < sig.generics.len()
        invariant
            i <= sig.generics@.len(),
            predicates@ == param_predicates(sig.generics@.subrange(0, i as int)),
        decreases sig.generics@.len() - i,
    {
        assert(sig.generics@.subrange(0, i + 1).drop_last() == sig.generics@.subrange(0, i as int));
        match &sig.generics[i] {
            GenericParam::Type(n) => predicates.push(WherePredicate::Param(n.clone())),
            GenericParam::Lifetime(n) => predicates.push(WherePredicate::Param(n.clone())),
            GenericParam::Const(_) => {},
        }
        i = i + 1;
    }
    assert(sig.generics@.subrange(0, sig.generics@.len() as int) == sig.generics@);
    let used = context.lifetimes(&sig.explicit_lifetimes);
    push_outlives(&mut predicates, &used);
    push_outlives(&mut predicates, &sig.elided_lifetimes);
    if has_self {
        predicates.push(self_predicate(context, &sig.inputs, has_default, is_local));
    }
    let mut args: Vec<ArgRewrite> = Vec::new();
    let mut j: usize = 0;
    while j < sig.inputs.len()
        invariant
            j <= sig.inputs@.len(),
            args@.len() == j,
            forall|k: int| 0 <= k < j ==> arg_rewrite_ok(k, #[trigger] sig.inputs@[k], args@[k]),
        decreases sig.inputs@.len() - j,
    {
        args.push(arg_rewrite(j, &sig.inputs[j]));
        j = j + 1;
    }
    let new_lifetimes = sig.elided_lifetimes.clone();
    assert(new_lifetimes@ == sig.elided_lifetimes@);
    let future_name = upper_camel_case_ret_future(sig.ident.as_str());
    let r = SigPlan { new_lifetimes, predicates, args, future_name, send: !is_local };
    assert(r.predicates@ == predicates_spec(*context, *sig, has_self, has_default, is_local));
    assert(forall|i: int|
        0 <= i < sig.inputs@.len() ==> arg_rewrite_ok(i, #[trigger] sig.inputs@[i], r.args@[i]));
    r
}

} // verus!
