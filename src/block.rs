use vstd::prelude::*;

use crate::context::{contains_assoc_impl_trait_spec, contains_associated_type_impl_trait, Context};
use crate::names::{decimal, positional_arg_name};
use crate::syntax::{FnArg, Pat, TypePath};
use crate::text::str_eq;

verus! {

/// A `let` statement that opens the rewritten body and moves one argument
/// into the async block.
#[derive(Clone, Debug, PartialEq, Eq)]
pub enum Decl {
    /// `let mut? __self = self;`
    SelfBinding { mutable: bool },
    /// `let mut? x = x;`
    Rebind { name: String, mutable: bool },
    /// `let __argN = __argN;` for a wildcard argument.
    Positional { name: String },
    /// `let <pattern> = __argN;` for any other pattern.
    Destructure { name: String },
}

/// How the statements of the method's body sit inside `async move { .. }`.
#[derive(Copy, Clone, Debug, PartialEq, Eq, Structural)]
pub enum BodyForm {
    /// No return type: `decls; let _: () = { body };`
    Unit,
    /// The body alone; the return type names an `impl Trait` associated type
    /// and there is no declaration.
    Plain,
    /// `decls { body }`; as above, with declarations.
    Scoped,
    /// A dead early return fixes the block's type to the return type, then
    /// `decls; let __ret: R = { body }; __ret`.
    Guarded,
}

/// The rewrite of a method body into an async block.
#[derive(Clone, Debug, PartialEq, Eq)]
pub struct BlockPlan {
    pub decls: Vec<Decl>,
    /// Whether `self` in the body is to be renamed `__self`.
    pub replace_self: bool,
    pub form: BodyForm,
}

/// The kind of declaration for the argument `a`, with its name where the
/// argument brings one.
pub open spec fn decl_kind(a: FnArg) -> Decl {
    match a {
        FnArg::Receiver { mutable, .. } => Decl::SelfBinding { mutable },
        FnArg::Typed { pat, .. } => match pat {
            Pat::Ident { name, mutable, .. } => if name@ == "self"@ {
                Decl::SelfBinding { mutable }
            } else {
                Decl::Rebind { name, mutable }
            },
            Pat::Wild => Decl::Positional { name: arbitrary() },
            Pat::Other { .. } => Decl::Destructure { name: arbitrary() },
        },
    }
}

/// Whether `d` is the declaration for the argument `a` at position `i`; a
/// fresh name is `__arg` followed by `i`.
pub open spec fn decl_ok(i: int, a: FnArg, d: Decl) -> bool {
    let fresh = "__arg"@ + decimal(i as nat);
    match decl_kind(a) {
        Decl::Positional { .. } => d is Positional && d->Positional_name@ == fresh,
        Decl::Destructure { .. } => d is Destructure && d->Destructure_name@ == fresh,
        other => d == other,
    }
}

/// Whether an argument is `self` in some form.
pub open spec fn binds_self(a: FnArg) -> bool {
    decl_kind(a) is SelfBinding
}

/// The form of the body, given every path in the return type, or `None`
/// where there is no return type.
pub open spec fn body_form_spec(context: Context, output: Option<Seq<TypePath>>, n_decls: nat) -> BodyForm {
    match output {
        None => BodyForm::Unit,
        Some(paths) => if contains_assoc_impl_trait_spec(context, paths) {
            if n_decls == 0 {
                BodyForm::Plain
            } else {
                BodyForm::Scoped
            }
        } else {
            BodyForm::Guarded
        },
    }
}

/// Every path of the return type, or `None` where there is none.
pub open spec fn output_view(output: Option<Vec<TypePath>>) -> Option<Seq<TypePath>> {
    match output {
        Some(v) => Some(v@),
        None => None,
    }
}

/// Whether `p` is the rewrite of a body of a method with the arguments
/// `inputs` and the return type `output`.
pub open spec fn block_plan_ok(
    context: Context,
    inputs: Seq<FnArg>,
    output: Option<Seq<TypePath>>,
    p: BlockPlan,
) -> bool {
    &&& p.decls@.len() == inputs.len()
    &&& forall|i: int| 0 <= i < inputs.len() ==> decl_ok(i, #[trigger] inputs[i], p.decls@[i])
    &&& p.replace_self == exists|i: int| 0 <= i < inputs.len() && #[trigger] binds_self(inputs[i])
    &&& p.form == body_form_spec(context, output, inputs.len())
}

fn decl_for(i: usize, a: &FnArg) -> (r: Decl)
    ensures
        decl_ok(i as int, *a, r),
{
    match a {
        FnArg::Receiver { mutable, .. } => Decl::SelfBinding { mutable: *mutable },
        FnArg::Typed { pat, .. } => match pat {
            Pat::Ident { name, mutable, .. } => if str_eq(name.as_str(), "self") {
                Decl::SelfBinding { mutable: *mutable }
            } else {
                Decl::Rebind { name: name.clone(), mutable: *mutable }
            },
            Pat::Wild => Decl::Positional { name: positional_arg_name(i) },
            Pat::Other { .. } => Decl::Destructure { name: positional_arg_name(i) },
        },
    }
}

/// Plans the rewrite of a method body into `async move { .. }`: one
/// declaration per argument, the renaming of `self`, and the body's form.
/// A body that is a lone `;` placeholder is left alone (`None`).
pub fn transform_block(
    context: &Context,
    inputs: &Vec<FnArg>,
    output: &Option<Vec<TypePath>>,
    is_placeholder: bool,
) -> (r: Option<BlockPlan>)
    ensures
        is_placeholder <==> r is None,
        r matches Some(p) ==> block_plan_ok(*context, inputs@, output_view(*output), p),
{
    if is_placeholder {
        return None;
    }
    let mut decls: Vec<Decl> = Vec::new();
    let mut replace_self = false;
    let mut i: usize = 0;
    while i < inputs.len()
        invariant
            i <= inputs@.len(),
            decls@.len() == i,
            forall|k: int| 0 <= k < i ==> decl_ok(k, #[trigger] inputs@[k], decls@[k]),
            replace_self == exists|k: int| 0 <= k < i && #[trigger] binds_self(inputs@[k]),
        decreases inputs@.len() - i,
    {
        let d = decl_for(i, &inputs[i]);
        if let Decl::SelfBinding { .. } = d {
            replace_self = true;
        }
        assert(binds_self(inputs@[i as int]) == d is SelfBinding);
        decls.push(d);
        i = i + 1;
    }
    let form = match output {
        None => BodyForm::Unit,
        Some(paths) => if contains_associated_type_impl_trait(context, paths) {
            if decls.len() == 0 {
                BodyForm::Plain
            } else {
                BodyForm::Scoped
            }
        } else {
            BodyForm::Guarded
        },
    };
    Some(BlockPlan { decls, replace_self, form })
}

} // verus!
