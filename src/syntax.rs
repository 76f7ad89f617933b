use vstd::prelude::*;

verus! {

/// A generic parameter of a trait, an impl or a method, by its name.
#[derive(Clone, Debug, PartialEq, Eq)]
pub enum GenericParam {
    /// A type parameter `T`.
    Type(String),
    /// A lifetime parameter, written with its quote (`'a`).
    Lifetime(String),
    /// A const parameter.
    Const(String),
}

/// A copy of a generic parameter.
pub fn copy_generic_param(p: &GenericParam) -> (r: GenericParam)
    ensures
        r == *p,
{
    match p {
        GenericParam::Type(n) => GenericParam::Type(n.clone()),
        GenericParam::Lifetime(n) => GenericParam::Lifetime(n.clone()),
        GenericParam::Const(n) => GenericParam::Const(n.clone()),
    }
}

/// One segment of a path: its identifier, and whether angle-bracketed or
/// parenthesized arguments follow it.
#[derive(Clone, Debug, PartialEq, Eq)]
pub struct Segment {
    pub ident: String,
    pub has_arguments: bool,
}

/// A path such as `::core::marker::Send`.
#[derive(Clone, Debug, PartialEq, Eq)]
pub struct BoundPath {
    pub leading_colon: bool,
    pub segments: Vec<Segment>,
}

/// A bound in a list such as the supertraits of a trait.
#[derive(Clone, Debug, PartialEq, Eq)]
pub enum TypeParamBound {
    Trait(BoundPath),
    Lifetime(String),
}

/// A path that occurs as a type, with whether it has a qualified self
/// (`<T as Trait>::Name`).
#[derive(Clone, Debug, PartialEq, Eq)]
pub struct TypePath {
    pub has_qself: bool,
    pub path: BoundPath,
}

/// The pattern of a typed argument.
#[derive(Clone, Debug, PartialEq, Eq)]
pub enum Pat {
    /// A binding `ref? mut? name`.
    Ident { name: String, by_ref: bool, mutable: bool },
    /// The wildcard `_`.
    Wild,
    /// Any other pattern; `has_mut_binding` tells whether it binds some name
    /// with `mut`.
    Other { has_mut_binding: bool },
}

/// The type of a typed argument, as far as the rewrite looks at it.
#[derive(Clone, Debug, PartialEq, Eq)]
pub enum ArgType {
    Reference { mutable: bool },
    Other,
}

/// One argument of a method signature.
#[derive(Clone, Debug, PartialEq, Eq)]
pub enum FnArg {
    /// `self`, `mut self`, `&self`, `&mut self` (with an optional lifetime).
    Receiver { reference: bool, mutable: bool },
    /// `pat: ty`.
    Typed { pat: Pat, ty: ArgType },
}

} // verus!
