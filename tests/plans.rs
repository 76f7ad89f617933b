use gat_trait::{
    expand, transform_block, transform_sig, ArgRewrite, ArgType, Body, BodyForm, BoundPath,
    Context, Decl, FnArg, GenericParam, ImplItem, Item, Marker, Method, MethodAttr, Pat, Segment,
    Signature, TraitItem, TypeParamBound, TypePath, WherePredicate,
};

fn s(x: &str) -> String {
    x.to_string()
}

fn ref_self() -> FnArg {
    FnArg::Receiver { reference: true, mutable: false }
}

fn typed(name: &str, reference: Option<bool>) -> FnArg {
    FnArg::Typed {
        pat: Pat::Ident { name: s(name), by_ref: false, mutable: false },
        ty: match reference {
            Some(mutable) => ArgType::Reference { mutable },
            None => ArgType::Other,
        },
    }
}

fn sig_f() -> Signature {
    // async fn f<T>(&self, x: &T) -> Ret
    Signature {
        ident: s("f"),
        generics: vec![GenericParam::Type(s("T"))],
        inputs: vec![ref_self(), typed("x", Some(false))],
        explicit_lifetimes: vec![],
        elided_lifetimes: vec![s("'life0"), s("'life1")],
    }
}

fn marker_path(name: &str) -> TypeParamBound {
    TypeParamBound::Trait(BoundPath {
        leading_colon: false,
        segments: vec![Segment { ident: s(name), has_arguments: false }],
    })
}

#[test]
fn trait_method_without_default() {
    let g = vec![];
    let st = vec![];
    let ctx = Context::Trait { generics: &g, super_traits: &st };
    let plan = transform_sig(&ctx, &sig_f(), true, false, false);
    assert_eq!(plan.new_lifetimes, vec![s("'life0"), s("'life1")]);
    assert_eq!(
        plan.predicates,
        vec![
            WherePredicate::Param(s("T")),
            WherePredicate::Outlives(s("'life0")),
            WherePredicate::Outlives(s("'life1")),
            WherePredicate::SelfOutlives,
        ]
    );
    assert_eq!(plan.args, vec![ArgRewrite::Keep, ArgRewrite::ClearBinding]);
    assert_eq!(plan.future_name, "FResultFuture");
    assert!(plan.send);
}

#[test]
fn default_method_needs_sync_self() {
    let g = vec![];
    let st = vec![];
    let ctx = Context::Trait { generics: &g, super_traits: &st };
    let plan = transform_sig(&ctx, &sig_f(), true, true, false);
    assert_eq!(plan.predicates.last(), Some(&WherePredicate::SelfMarker(Marker::Sync)));
    let local = transform_sig(&ctx, &sig_f(), true, true, true);
    assert_eq!(local.predicates.last(), Some(&WherePredicate::SelfOutlives));
    assert!(!local.send);
}

#[test]
fn supertrait_settles_the_marker() {
    let g = vec![];
    let st = vec![marker_path("Sync")];
    let ctx = Context::Trait { generics: &g, super_traits: &st };
    let plan = transform_sig(&ctx, &sig_f(), true, true, false);
    assert_eq!(plan.predicates.last(), Some(&WherePredicate::SelfOutlives));
}

#[test]
fn by_value_self_needs_send() {
    let g = vec![];
    let st = vec![marker_path("Sync")];
    let ctx = Context::Trait { generics: &g, super_traits: &st };
    let mut sig = sig_f();
    sig.inputs[0] = FnArg::Receiver { reference: false, mutable: true };
    let plan = transform_sig(&ctx, &sig, true, true, false);
    assert_eq!(plan.predicates.last(), Some(&WherePredicate::SelfMarker(Marker::Send)));
    assert_eq!(plan.args[0], ArgRewrite::DropMutability);
}

#[test]
fn typed_self_reference_needs_sync() {
    let g = vec![];
    let st = vec![];
    let ctx = Context::Trait { generics: &g, super_traits: &st };
    let mut sig = sig_f();
    sig.inputs[0] = typed("self", Some(false));
    let plan = transform_sig(&ctx, &sig, true, true, false);
    assert_eq!(plan.predicates.last(), Some(&WherePredicate::SelfMarker(Marker::Sync)));
    sig.inputs[0] = typed("self", Some(true));
    let plan = transform_sig(&ctx, &sig, true, true, false);
    assert_eq!(plan.predicates.last(), Some(&WherePredicate::SelfMarker(Marker::Send)));
}

#[test]
fn impl_lifetimes_and_patterns() {
    let g = vec![GenericParam::Lifetime(s("'a")), GenericParam::Lifetime(s("'b"))];
    let set = vec![];
    let ctx = Context::Impl { impl_generics: &g, associated_type_impl_traits: &set };
    let sig = Signature {
        ident: s("load_all"),
        generics: vec![GenericParam::Const(s("N")), GenericParam::Lifetime(s("'x"))],
        inputs: vec![
            typed("a", Some(false)),
            FnArg::Typed { pat: Pat::Wild, ty: ArgType::Other },
            FnArg::Typed { pat: Pat::Other { has_mut_binding: true }, ty: ArgType::Other },
        ],
        explicit_lifetimes: vec![s("'b")],
        elided_lifetimes: vec![s("'life0")],
    };
    let plan = transform_sig(&ctx, &sig, false, false, false);
    assert_eq!(
        plan.predicates,
        vec![
            WherePredicate::Param(s("'x")),
            WherePredicate::Outlives(s("'b")),
            WherePredicate::Outlives(s("'life0")),
        ]
    );
    assert_eq!(
        plan.args,
        vec![
            ArgRewrite::ClearBinding,
            ArgRewrite::Positional { name: s("__arg1"), mutable: false },
            ArgRewrite::Positional { name: s("__arg2"), mutable: true },
        ]
    );
    assert_eq!(plan.future_name, "LoadAllResultFuture");
}

#[test]
fn block_declarations_and_forms() {
    let g = vec![];
    let set = vec![s("Fut")];
    let ctx = Context::Impl { impl_generics: &g, associated_type_impl_traits: &set };
    let inputs = vec![
        FnArg::Receiver { reference: true, mutable: true },
        FnArg::Typed {
            pat: Pat::Ident { name: s("x"), by_ref: false, mutable: true },
            ty: ArgType::Other,
        },
        FnArg::Typed { pat: Pat::Other { has_mut_binding: false }, ty: ArgType::Other },
        FnArg::Typed { pat: Pat::Wild, ty: ArgType::Other },
    ];
    let plan = transform_block(&ctx, &inputs, &None, false).unwrap();
    assert_eq!(
        plan.decls,
        vec![
            Decl::SelfBinding { mutable: true },
            Decl::Rebind { name: s("x"), mutable: true },
            Decl::Destructure { name: s("__arg2") },
            Decl::Positional { name: s("__arg3") },
        ]
    );
    assert!(plan.replace_self);
    assert_eq!(plan.form, BodyForm::Unit);

    let ret = Some(vec![TypePath {
        has_qself: false,
        path: BoundPath {
            leading_colon: false,
            segments: vec![
                Segment { ident: s("Self"), has_arguments: false },
                Segment { ident: s("Fut"), has_arguments: false },
            ],
        },
    }]);
    assert_eq!(transform_block(&ctx, &inputs, &ret, false).unwrap().form, BodyForm::Scoped);
    assert_eq!(transform_block(&ctx, &vec![], &ret, false).unwrap().form, BodyForm::Plain);
    let other = Some(vec![]);
    assert_eq!(transform_block(&ctx, &vec![], &other, false).unwrap().form, BodyForm::Guarded);
    assert!(transform_block(&ctx, &inputs, &ret, true).is_none());
}

#[test]
fn typed_self_is_renamed() {
    let g = vec![];
    let st = vec![];
    let ctx = Context::Trait { generics: &g, super_traits: &st };
    let plan = transform_block(&ctx, &vec![typed("self", Some(false))], &None, false).unwrap();
    assert_eq!(plan.decls, vec![Decl::SelfBinding { mutable: false }]);
    assert!(plan.replace_self);
    let plan = transform_block(&ctx, &vec![typed("y", None)], &None, false).unwrap();
    assert!(!plan.replace_self);
}

fn run_method(body: Option<Body>) -> Method {
    Method {
        sig: Signature {
            ident: s("run"),
            generics: vec![],
            inputs: vec![ref_self()],
            explicit_lifetimes: vec![],
            elided_lifetimes: vec![s("'life0")],
        },
        is_async: true,
        output: None,
        has_self_in_sig: true,
        body,
    }
}

#[test]
fn expand_trait_rewrites_async_methods_only() {
    let mut sync_method = run_method(None);
    sync_method.is_async = false;
    let item = Item::Trait {
        generics: vec![],
        supertraits: vec![],
        items: vec![
            TraitItem::Other,
            TraitItem::Method(run_method(None)),
            TraitItem::Method(sync_method),
            TraitItem::Method(run_method(Some(Body { has_self: false, is_placeholder: false }))),
        ],
    };
    let plans = expand(&item, false);
    assert_eq!(plans.len(), 2);
    assert_eq!(plans[0].index, 1);
    assert_eq!(plans[0].attrs, vec![MethodAttr::MustUse, MethodAttr::LintsWithoutBody]);
    assert!(plans[0].block.is_none());
    assert_eq!(plans[0].sig.future_name, "RunResultFuture");
    assert_eq!(plans[0].sig.predicates.last(), Some(&WherePredicate::SelfOutlives));
    assert_eq!(plans[1].index, 3);
    assert_eq!(plans[1].attrs, vec![MethodAttr::MustUse, MethodAttr::LintsWithBody]);
    assert!(plans[1].block.is_some());
    assert_eq!(
        plans[1].sig.predicates.last(),
        Some(&WherePredicate::SelfMarker(Marker::Sync))
    );
}

#[test]
fn expand_impl_uses_elided_lifetimes_first() {
    let mut m = run_method(Some(Body { has_self: true, is_placeholder: false }));
    m.sig.explicit_lifetimes = vec![s("'impl0"), s("'a")];
    let item = Item::Impl {
        generics: vec![GenericParam::Lifetime(s("'a"))],
        elided: vec![s("'impl0")],
        items: vec![
            ImplItem::Type { ident: s("Fut"), is_impl_trait: true },
            ImplItem::Method(m),
        ],
    };
    let plans = expand(&item, true);
    assert_eq!(plans.len(), 1);
    assert_eq!(plans[0].index, 1);
    assert_eq!(plans[0].attrs, vec![MethodAttr::LintsWithBody]);
    assert_eq!(
        plans[0].sig.predicates,
        vec![
            WherePredicate::Outlives(s("'impl0")),
            WherePredicate::Outlives(s("'a")),
            WherePredicate::Outlives(s("'life0")),
            WherePredicate::SelfOutlives,
        ]
    );
    assert!(!plans[0].sig.send);
}
