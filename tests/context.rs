use gat_trait::{
    contains_associated_type_impl_trait, has_bound, BoundPath, Context, GenericParam, Segment,
    TypeParamBound, TypePath,
};

fn seg(s: &str) -> Segment {
    Segment { ident: s.to_string(), has_arguments: false }
}

fn path(leading_colon: bool, segs: &[&str]) -> BoundPath {
    BoundPath { leading_colon, segments: segs.iter().map(|s| seg(s)).collect() }
}

#[test]
fn bare_marker_is_a_bound() {
    let st = vec![TypeParamBound::Lifetime("'static".to_string()), TypeParamBound::Trait(path(false, &["Sync"]))];
    assert!(has_bound(&st, "Sync"));
    assert!(!has_bound(&st, "Send"));
}

#[test]
fn qualified_marker_is_a_bound() {
    let st = vec![TypeParamBound::Trait(path(true, &["core", "marker", "Send"]))];
    assert!(has_bound(&st, "Send"));
    let st = vec![TypeParamBound::Trait(path(false, &["std", "marker", "Send"]))];
    assert!(has_bound(&st, "Send"));
    let st = vec![TypeParamBound::Trait(path(false, &["alloc", "marker", "Send"]))];
    assert!(!has_bound(&st, "Send"));
}

#[test]
fn marker_with_leading_colon_or_arguments_is_not_bare() {
    let st = vec![TypeParamBound::Trait(path(true, &["Send"]))];
    assert!(!has_bound(&st, "Send"));
    let st = vec![TypeParamBound::Trait(BoundPath {
        leading_colon: false,
        segments: vec![Segment { ident: "Send".to_string(), has_arguments: true }],
    })];
    assert!(!has_bound(&st, "Send"));
    assert!(!has_bound(&vec![], "Send"));
}

#[test]
fn lifetimes_keeps_used_ones_in_order() {
    let g = vec![
        GenericParam::Lifetime("'b".to_string()),
        GenericParam::Type("T".to_string()),
        GenericParam::Lifetime("'a".to_string()),
        GenericParam::Lifetime("'c".to_string()),
    ];
    let st = vec![];
    let ctx = Context::Trait { generics: &g, super_traits: &st };
    let used = vec!["'a".to_string(), "'b".to_string(), "T".to_string()];
    assert_eq!(ctx.lifetimes(&used), vec!["'b".to_string(), "'a".to_string()]);
}

#[test]
fn associated_impl_trait_in_impl_only() {
    let g = vec![];
    let set = vec!["Fut".to_string()];
    let ctx = Context::Impl { impl_generics: &g, associated_type_impl_traits: &set };
    let hit = vec![
        TypePath { has_qself: false, path: path(false, &["Option"]) },
        TypePath { has_qself: false, path: path(false, &["Self", "Fut"]) },
    ];
    assert!(contains_associated_type_impl_trait(&ctx, &hit));
    let qualified = vec![TypePath { has_qself: true, path: path(false, &["Self", "Fut"]) }];
    assert!(!contains_associated_type_impl_trait(&ctx, &qualified));
    let other = vec![TypePath { has_qself: false, path: path(false, &["Self", "Item"]) }];
    assert!(!contains_associated_type_impl_trait(&ctx, &other));
    let st = vec![];
    let tctx = Context::Trait { generics: &g, super_traits: &st };
    assert!(!contains_associated_type_impl_trait(&tctx, &hit));
}
