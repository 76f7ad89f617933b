use vstd::prelude::*;

use crate::block::{block_plan_ok, output_view, transform_block, BlockPlan};
use crate::context::Context;
use crate::syntax::copy_generic_param;
use crate::signature::{sig_plan_ok, transform_sig, SigPlan, Signature};
use crate::syntax::{GenericParam, TypeParamBound, TypePath};

verus! {

/// A method of a trait or an impl, as the rewrite reads it.
#[derive(Clone, Debug, PartialEq, Eq)]
pub struct Method {
    pub sig: Signature,
    pub is_async: bool,
    /// Every path that occurs in the return type, or `None` where the
    /// method declares none.
    pub output: Option<Vec<TypePath>>,
    /// Whether the signature mentions `self` or `Self`.
    pub has_self_in_sig: bool,
    /// The body, if the method has one.
    pub body: Option<Body>,
}

/// A method body, as the rewrite reads it.
#[derive(Copy, Clone, Debug, PartialEq, Eq, Structural)]
pub struct Body {
    /// Whether the body mentions `self` or `Self`.
    pub has_self: bool,
    /// Whether the body is a lone `;` placeholder.
    pub is_placeholder: bool,
}

/// An item inside a trait definition.
#[derive(Clone, Debug, PartialEq, Eq)]
pub enum TraitItem {
    Method(Method),
    Other,
}

/// An item inside an impl.
#[derive(Clone, Debug, PartialEq, Eq)]
pub enum ImplItem {
    Method(Method),
    /// `type Name = Ty;`, with whether `Ty` is an `impl Trait` type.
    Type { ident: String, is_impl_trait: bool },
    Other,
}

/// The item under the attribute.
#[derive(Clone, Debug, PartialEq, Eq)]
pub enum Item {
    Trait { generics: Vec<GenericParam>, supertraits: Vec<TypeParamBound>, items: Vec<TraitItem> },
    Impl {
        generics: Vec<GenericParam>,
        /// The fresh lifetimes given to elided lifetimes in the self type
        /// and the trait path; they go in front of the impl's generics.
        elided: Vec<String>,
        items: Vec<ImplItem>,
    },
}

/// An attribute added to a rewritten method.
#[derive(Copy, Clone, Debug, PartialEq, Eq, Structural)]
pub enum MethodAttr {
    /// `#[must_use]`
    MustUse,
    /// `#[allow(..)]` with the lints of `lint_suppress_with_body`.
    LintsWithBody,
    /// `#[allow(..)]` with the lints of `lint_suppress_without_body`.
    LintsWithoutBody,
}

/// The rewrite of one async method. Its associated future type is appended
/// to the item, after all the items it had, in the order of the methods.
#[derive(Clone, Debug, PartialEq, Eq)]
pub struct MethodPlan {
    /// The method's position among the item's items.
    pub index: usize,
    pub attrs: Vec<MethodAttr>,
    /// The rewrite of the body; `None` where there is none to rewrite.
    pub block: Option<BlockPlan>,
    pub sig: SigPlan,
}

/// The lints silenced on a rewritten method that has a body.
pub fn lint_suppress_with_body() -> (r: Vec<&'static str>)
    ensures
        r@.len() == 6,
        r@[0]@ == "clippy::let_unit_value"@,
        r@[1]@ == "clippy::no_effect_underscore_binding"@,
        r@[2]@ == "clippy::shadow_same"@,
        r@[3]@ == "clippy::type_complexity"@,
        r@[4]@ == "clippy::type_repetition_in_bounds"@,
        r@[5]@ == "clippy::used_underscore_binding"@,
{
    vec![
        "clippy::let_unit_value",
        "clippy::no_effect_underscore_binding",
        "clippy::shadow_same",
        "clippy::type_complexity",
        "clippy::type_repetition_in_bounds",
        "clippy::used_underscore_binding",
    ]
}

/// The lints silenced on a rewritten trait method without a body.
pub fn lint_suppress_without_body() -> (r: Vec<&'static str>)
    ensures
        r@.len() == 2,
        r@[0]@ == "clippy::type_complexity"@,
        r@[1]@ == "clippy::type_repetition_in_bounds"@,
{
    vec!["clippy::type_complexity", "clippy::type_repetition_in_bounds"]
}

/// The names of the associated types among `items` whose value is an
/// `impl Trait` type, in order.
pub open spec fn assoc_impl_trait_names(items: Seq<ImplItem>) -> Seq<String>
    decreases items.len(),
{
    if items.len() == 0 {
        Seq::empty()
    } else {
        let rest = assoc_impl_trait_names(items.drop_last());
        let it = items.last();
        if it is Type && it->Type_is_impl_trait {
            rest.push(it->Type_ident)
        } else {
            rest
        }
    }
}

/// The names of the impl's associated types whose value is an `impl Trait`
/// type.
pub fn associated_type_impl_traits(items: &Vec<ImplItem>) -> (r: Vec<String>)
    ensures
        r@ == assoc_impl_trait_names(items@),
{
    let mut r: Vec<String> = Vec::new();
    let mut i: usize = 0;
    while i < items.len()
        invariant
            i <= items@.len(),
            r@ == assoc_impl_trait_names(items@.subrange(0, i as int)),
        decreases items@.len() - i,
    {
        assert(items@.subrange(0, i + 1).drop_last() == items@.subrange(0, i as int));
        if let ImplItem::Type { ident, is_impl_trait } = &items[i] {
            if *is_impl_trait {
                r.push(ident.clone());
            }
        }
        i = i + 1;
    }
    assert(items@.subrange(0, items@.len() as int) == items@);
    r
}

/// Each item, as a method where it is one.
pub open spec fn trait_methods(items: Seq<TraitItem>) -> Seq<Option<Method>> {
    items.map_values(|it: TraitItem| match it {
        TraitItem::Method(m) => Some(m),
        TraitItem::Other => None,
    })
}

/// Each item, as a method where it is one.
pub open spec fn impl_methods(items: Seq<ImplItem>) -> Seq<Option<Method>> {
    items.map_values(|it: ImplItem| match it {
        ImplItem::Method(m) => Some(m),
        _ => None,
    })
}

/// The positions of the async methods, in order.
pub open spec fn async_positions(ms: Seq<Option<Method>>) -> Seq<int>
    decreases ms.len(),
{
    if ms.len() == 0 {
        Seq::empty()
    } else {
        let rest = async_positions(ms.drop_last());
        if ms.last() matches Some(m) && m.is_async {
            rest.push(ms.len() - 1)
        } else {
            rest
        }
    }
}

proof fn lemma_async_positions_in_range(ms: Seq<Option<Method>>)
    ensures
        forall|k: int|
            0 <= k < async_positions(ms).len() ==> 0 <= #[trigger] async_positions(ms)[k] < ms.len(),
    decreases ms.len(),
{
    if ms.len() > 0 {
        let rest = ms.drop_last();
        lemma_async_positions_in_range(rest);
        let pos = async_positions(ms);
        let rp = async_positions(rest);
        assert forall|k: int| 0 <= k < pos.len() implies 0 <= #[trigger] pos[k] < ms.len() by {
            if k < rp.len() {
                assert(pos[k] == rp[k]);
                assert(0 <= rp[k] < rest.len());
            }
        }
    }
}

/// Whether `ctx` is the context of the methods of `item`: the trait's
/// generics and supertraits, or the impl's generics behind its elided
/// lifetimes and its `impl Trait` associated types.
pub open spec fn context_of(ctx: Context, item: Item) -> bool {
    match item {
        Item::Trait { generics, supertraits, .. } => ctx is Trait && ctx.generics_spec()
            == generics@ && ctx->super_traits@ == supertraits@,
        Item::Impl { generics, elided, items } => ctx is Impl && ctx.generics_spec()
            == elided@.map_values(|l: String| GenericParam::Lifetime(l)) + generics@
            && ctx->associated_type_impl_traits@ == assoc_impl_trait_names(items@),
    }
}

/// The attributes added to an async method.
pub open spec fn attrs_spec(in_trait: bool, has_body: bool) -> Seq<MethodAttr> {
    if !in_trait {
        seq![MethodAttr::LintsWithBody]
    } else if has_body {
        seq![MethodAttr::MustUse, MethodAttr::LintsWithBody]
    } else {
        seq![MethodAttr::MustUse, MethodAttr::LintsWithoutBody]
    }
}

/// Whether `p` is the rewrite of the async method `m` at position `index`
/// of a trait (`in_trait`) or an impl. Only a trait method's body is a
/// default; `self` is captured where the signature or the body mentions it.
pub open spec fn method_plan_ok(
    ctx: Context,
    in_trait: bool,
    is_local: bool,
    index: int,
    m: Method,
    p: MethodPlan,
) -> bool {
    let has_body = m.body is Some;
    let has_self = m.has_self_in_sig || (m.body matches Some(b) && b.has_self);
    &&& p.index == index
    &&& p.attrs@ == attrs_spec(in_trait, has_body)
    &&& match m.body {
        None => p.block is None,
        Some(b) => {
            &&& b.is_placeholder <==> p.block is None
            &&& p.block matches Some(bp) ==> block_plan_ok(
                ctx,
                m.sig.inputs@,
                output_view(m.output),
                bp,
            )
        },
    }
    &&& sig_plan_ok(ctx, m.sig, has_self, in_trait && has_body, is_local, p.sig)
}

/// Whether `r` holds the rewrite of each async method of `ms`, in order.
pub open spec fn plans_ok(
    ctx: Context,
    in_trait: bool,
    is_local: bool,
    ms: Seq<Option<Method>>,
    r: Seq<MethodPlan>,
) -> bool {
    let pos = async_positions(ms);
    &&& r.len() == pos.len()
    &&& forall|k: int|
        0 <= k < r.len() ==> #[trigger] method_plan_ok(
            ctx,
            in_trait,
            is_local,
            pos[k],
            ms[pos[k]]->Some_0,
            r[k],
        )
}

fn plan_method(ctx: &Context, in_trait: bool, is_local: bool, index: usize, m: &Method) -> (p:
    MethodPlan)
    ensures
        method_plan_ok(*ctx, in_trait, is_local, index as int, *m, p),
{
    let mut has_self = m.has_self_in_sig;
    let block = match &m.body {
        Some(b) => {
            has_self = has_self || b.has_self;
            transform_block(ctx, &m.sig.inputs, &m.output, b.is_placeholder)
        },
        None => None,
    };
    let has_body = m.body.is_some();
    let attrs = if !in_trait {
        vec![MethodAttr::LintsWithBody]
    } else if has_body {
        vec![MethodAttr::MustUse, MethodAttr::LintsWithBody]
    } else {
        vec![MethodAttr::MustUse, MethodAttr::LintsWithoutBody]
    };
    let sig = transform_sig(ctx, &m.sig, has_self, in_trait && has_body, is_local);
    assert(attrs@ =~= attrs_spec(in_trait, has_body));
    MethodPlan { index, attrs, block, sig }
}

/// Plans the rewrite of every async method of a trait definition or an
/// impl. Each plan names the method's position, the attributes it gains,
/// the rewrite of its body and of its signature; the associated future
/// types follow the item's items in the same order.
pub fn expand(item: &Item, is_local: bool) -> (r: Vec<MethodPlan>)
    ensures
        exists|ctx: Context|
            context_of(ctx, *item) && match *item {
                Item::Trait { items, .. } => plans_ok(ctx, true, is_local, trait_methods(items@), r@),
                Item::Impl { items, .. } => plans_ok(ctx, false, is_local, impl_methods(items@), r@),
            },
{
    match item {
        Item::Trait { generics, supertraits, items } => {
            let ctx = Context::Trait { generics, super_traits: supertraits };
            assert(ctx.generics_spec() == generics@);
            let ghost ms = trait_methods(items@);
            let mut r: Vec<MethodPlan> = Vec::new();
            let mut i: usize = 0;
            while i < items.len()
                invariant
                    i <= items@.len(),
                    ms == trait_methods(items@),
                    plans_ok(ctx, true, is_local, ms.subrange(0, i as int), r@),
                decreases items@.len() - i,
            {
                let ghost sub = ms.subrange(0, i + 1);
                assert(sub.drop_last() == ms.subrange(0, i as int));
                if let TraitItem::Method(m) = &items[i] {
                    if m.is_async {
                        let p = plan_method(&ctx, true, is_local, i, m);
                        r.push(p);
                    }
                }
                proof {
                    let prev = ms.subrange(0, i as int);
                    lemma_async_positions_in_range(prev);
                    let pp = async_positions(prev);
                    assert forall|k: int| 0 <= k < pp.len() implies sub[pp[k]] == prev[pp[k]] by {
                        assert(0 <= pp[k] < prev.len());
                    }
                    assert(sub[i as int] == ms[i as int]);
                }
                assert(plans_ok(ctx, true, is_local, sub, r@));
                i = i + 1;
            }
            assert(ms.subrange(0, items@.len() as int) == ms);
            assert(context_of(ctx, *item));
            r
        },
        Item::Impl { generics, elided, items } => {
            let mut impl_generics: Vec<GenericParam> = Vec::new();
            let mut j: usize = 0;
            while j < elided.len()
                invariant
                    j <= elided@.len(),
                    impl_generics@ == elided@.subrange(0, j as int).map_values(
                        |l: String| GenericParam::Lifetime(l),
                    ),
                decreases elided@.len() - j,
            {
                impl_generics.push(GenericParam::Lifetime(elided[j].clone()));
                assert(elided@.subrange(0, j + 1).map_values(|l: String| GenericParam::Lifetime(l))
                    == elided@.subrange(0, j as int).map_values(|l: String| GenericParam::Lifetime(l)).push(
                    GenericParam::Lifetime(elided@[j as int]),
                ));
                j = j + 1;
            }
            assert(elided@.subrange(0, elided@.len() as int) == elided@);
            let mut k: usize = 0;
            let ghost front = impl_generics@;
            while k < generics.len()
                invariant
                    k <= generics@.len(),
                    impl_generics@ == front + generics@.subrange(0, k as int),
                decreases generics@.len() - k,
            {
                impl_generics.push(copy_generic_param(&generics[k]));
                assert(generics@.subrange(0, k + 1) == generics@.subrange(0, k as int).push(generics@[k as int]));
                k = k + 1;
            }
            assert(generics@.subrange(0, generics@.len() as int) == generics@);
            let assoc = associated_type_impl_traits(items);
            let ctx = Context::Impl {
                impl_generics: &impl_generics,
                associated_type_impl_traits: &assoc,
            };
            let ghost ms = impl_methods(items@);
            let mut r: Vec<MethodPlan> = Vec::new();
            let mut i: usize = 0;
            while i < items.len()
                invariant
                    i <= items@.len(),
                    ms == impl_methods(items@),
                    plans_ok(ctx, false, is_local, ms.subrange(0, i as int), r@),
                decreases items@.len() - i,
            {
                let ghost sub = ms.subrange(0, i + 1);
                assert(sub.drop_last() == ms.subrange(0, i as int));
                if let ImplItem::Method(m) = &items[i] {
                    if m.is_async {
                        let p = plan_method(&ctx, false, is_local, i, m);
                        r.push(p);
                    }
                }
                proof {
                    let prev = ms.subrange(0, i as int);
                    lemma_async_positions_in_range(prev);
                    let pp = async_positions(prev);
                    assert forall|k: int| 0 <= k < pp.len() implies sub[pp[k]] == prev[pp[k]] by {
                        assert(0 <= pp[k] < prev.len());
                    }
                    assert(sub[i as int] == ms[i as int]);
                }
                assert(plans_ok(ctx, false, is_local, sub, r@));
                i = i + 1;
            }
            assert(ms.subrange(0, items@.len() as int) == ms);
            assert(context_of(ctx, *item));
            r
        },
    }
}

} // verus!
