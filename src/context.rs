use vstd::prelude::*;

use crate::syntax::{BoundPath, GenericParam, TypeParamBound, TypePath};
use crate::text::{contains_str, contains_view, str_eq};

verus! {

/// Where the rewritten method stands: in a trait definition or in an impl
/// of such a trait.
#[derive(Copy, Clone, Debug)]
pub enum Context<'a> {
    Trait {
        generics: &'a Vec<GenericParam>,
        super_traits: &'a Vec<TypeParamBound>,
    },
    Impl {
        impl_generics: &'a Vec<GenericParam>,
        /// Associated types of the impl whose value is an `impl Trait` type.
        associated_type_impl_traits: &'a Vec<String>,
    },
}

/// The lifetime parameters of `params` that occur in `used`, in the order
/// of `params`.
pub open spec fn used_lifetimes(params: Seq<GenericParam>, used: Seq<String>) -> Seq<String>
    decreases params.len(),
{
    if params.len() == 0 {
        Seq::empty()
    } else {
        let rest = used_lifetimes(params.drop_last(), used);
        let p = params.last();
        if p is Lifetime && contains_view(used, p->Lifetime_0@) {
            rest.push(p->Lifetime_0)
        } else {
            rest
        }
    }
}

impl Context<'_> {
    pub open spec fn generics_spec(&self) -> Seq<GenericParam> {
        match self {
            Context::Trait { generics, .. } => generics@,
            Context::Impl { impl_generics, .. } => impl_generics@,
        }
    }

    /// The lifetime parameters of the enclosing trait or impl that occur in
    /// `used`.
    pub fn lifetimes(&self, used: &Vec<String>) -> (r: Vec<String>)
        ensures
            r@ == used_lifetimes(self.generics_spec(), used@),
    {
        let generics = match self {
            Context::Trait { generics, .. } => generics,
            Context::Impl { impl_generics, .. } => impl_generics,
        };
        let mut r: Vec<String> = Vec::new();
        let mut i: usize = 0;
        while i < generics.len()
            invariant
                i <= generics@.len(),
                generics@ == self.generics_spec(),
                r@ == used_lifetimes(generics@.subrange(0, i as int), used@),
            decreases generics@.len() - i,
        {
            assert(generics@.subrange(0, i + 1).drop_last() == generics@.subrange(0, i as int));
            if let GenericParam::Lifetime(l) = &generics[i] {
                if contains_str(used, l.as_str()) {
                    r.push(l.clone());
                }
            }
            i = i + 1;
        }
        assert(generics@.subrange(0, generics@.len() as int) == generics@);
        r
    }
}

/// Whether `path` is the bare identifier `ident`: no leading `::`, one
/// segment, no arguments.
pub open spec fn path_is_ident(path: BoundPath, ident: Seq<char>) -> bool {
    &&& !path.leading_colon
    &&& path.segments@.len() == 1
    &&& !path.segments@[0].has_arguments
    &&& path.segments@[0].ident@ == ident
}

/// Whether `path` names the marker trait `marker`, bare or as
/// `std::marker::<marker>` or `core::marker::<marker>`.
pub open spec fn names_marker(path: BoundPath, marker: Seq<char>) -> bool {
    ||| path_is_ident(path, marker)
    ||| {
        &&& path.segments@.len() == 3
        &&& (path.segments@[0].ident@ == "std"@ || path.segments@[0].ident@ == "core"@)
        &&& path.segments@[1].ident@ == "marker"@
        &&& path.segments@[2].ident@ == marker
    }
}

pub open spec fn bound_names_marker(b: TypeParamBound, marker: Seq<char>) -> bool {
    b is Trait && names_marker(b->Trait_0, marker)
}

/// Whether some trait bound of `super_traits` names the marker trait.
pub open spec fn has_bound_spec(super_traits: Seq<TypeParamBound>, marker: Seq<char>) -> bool {
    exists|i: int| 0 <= i < super_traits.len() && #[trigger] bound_names_marker(super_traits[i], marker)
}

fn path_names_marker(path: &BoundPath, marker: &str) -> (r: bool)
    ensures
        r == names_marker(*path, marker@),
{
    let segs = &path.segments;
    if !path.leading_colon && segs.len() == 1 && !segs[0].has_arguments && str_eq(
        segs[0].ident.as_str(),
        marker,
    ) {
        return true;
    }
    segs.len() == 3 && (str_eq(segs[0].ident.as_str(), "std") || str_eq(
        segs[0].ident.as_str(),
        "core",
    )) && str_eq(segs[1].ident.as_str(), "marker") && str_eq(segs[2].ident.as_str(), marker)
}

/// Whether the supertraits already require the marker trait `marker`.
pub fn has_bound(super_traits: &Vec<TypeParamBound>, marker: &str) -> (r: bool)
    ensures
        r == has_bound_spec(super_traits@, marker@),
{
    let mut i: usize = 0;
    while i < super_traits.len()
        invariant
            i <= super_traits@.len(),
            forall|j: int| 0 <= j < i ==> !#[trigger] bound_names_marker(super_traits@[j], marker@),
        decreases super_traits@.len() - i,
    {
        if let TypeParamBound::Trait(path) = &super_traits[i] {
            if path_names_marker(path, marker) {
                assert(bound_names_marker(super_traits@[i as int], marker@));
                return true;
            }
        }
        i = i + 1;
    }
    false
}

/// Whether a type path is `Self::Name` for a name in `set`.
pub open spec fn is_self_assoc_in(ty: TypePath, set: Seq<String>) -> bool {
    &&& !ty.has_qself
    &&& ty.path.segments@.len() == 2
    &&& ty.path.segments@[0].ident@ == "Self"@
    &&& contains_view(set, ty.path.segments@[1].ident@)
}

/// Whether a type, given by every path that occurs in it, mentions an
/// associated type of the impl whose value is an `impl Trait` type.
pub open spec fn contains_assoc_impl_trait_spec(context: Context, paths: Seq<TypePath>) -> bool {
    context is Impl && exists|i: int|
        0 <= i < paths.len() && #[trigger] is_self_assoc_in(
            paths[i],
            context->associated_type_impl_traits@,
        )
}

/// Whether the return type, given by every path that occurs in it,
/// mentions an associated type of the impl whose value is an `impl Trait`
/// type. In a trait definition this never holds.
pub fn contains_associated_type_impl_trait(context: &Context, paths: &Vec<TypePath>) -> (r: bool)
    ensures
        r == contains_assoc_impl_trait_spec(*context, paths@),
{
    match context {
        Context::Trait { .. } => false,
        Context::Impl { associated_type_impl_traits, .. } => {
            let mut i: usize = 0;
            while i < paths.len()
                invariant
                    i <= paths@.len(),
                    *context is Impl,
                    context->associated_type_impl_traits == *associated_type_impl_traits,
                    forall|j: int|
                        0 <= j < i ==> !#[trigger] is_self_assoc_in(
                            paths@[j],
                            associated_type_impl_traits@,
                        ),
                decreases paths@.len() - i,
            {
                let ty = &paths[i];
                let segs = &ty.path.segments;
                if !ty.has_qself && segs.len() == 2 && str_eq(segs[0].ident.as_str(), "Self")
                    && contains_str(associated_type_impl_traits, segs[1].ident.as_str()) {
                    assert(is_self_assoc_in(paths@[i as int], associated_type_impl_traits@));
                    return true;
                }
                i = i + 1;
            }
            false
        },
    }
}

} // verus!
