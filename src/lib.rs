//! Decisions behind rewriting async trait methods into methods that return
//! an associated future type with a lifetime parameter.
//!
//! The syntax trees themselves belong to the caller: this library takes
//! plain summaries of them (names, flags, lists) and says what the rewrite
//! does with each part.
pub mod args;
pub mod block;
pub mod context;
pub mod expand;
pub mod names;
pub mod signature;
pub mod syntax;
pub mod text;

pub use args::{try_parse, ArgToken, Args, ArgsError};
pub use block::{transform_block, BlockPlan, BodyForm, Decl};
pub use context::{contains_associated_type_impl_trait, has_bound, Context};
pub use expand::{
    associated_type_impl_traits, expand, lint_suppress_with_body, lint_suppress_without_body, Body, ImplItem,
    Item, Method, MethodAttr, MethodPlan, TraitItem,
};
pub use names::{decimal_string, positional_arg_name, upper_camel_case_ret_future};
pub use signature::{transform_sig, ArgRewrite, Marker, SigPlan, Signature, WherePredicate};
pub use syntax::{ArgType, BoundPath, FnArg, GenericParam, Pat, Segment, TypeParamBound, TypePath};
pub use text::{contains_str, str_eq};
