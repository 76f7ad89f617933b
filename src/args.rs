use vstd::prelude::*;

use crate::text::str_eq;

verus! {

/// The options written inside the attribute's parentheses.
///
/// `local` is set by `?Send`: the generated futures are then not required
/// to be `Send`.
#[derive(Copy, Clone, Debug, PartialEq, Eq, Structural)]
pub struct Args {
    pub local: bool,
}

/// One token of the attribute's argument list, as far as its grammar needs
/// to tell tokens apart.
#[derive(Clone, Debug, PartialEq, Eq)]
pub enum ArgToken {
    /// A single punctuation character.
    Punct(char),
    /// An identifier, written as in the source (a raw one keeps its `r#`).
    Ident(String),
    /// A literal, a group or anything else.
    Other,
}

/// The argument list does not have one of the two accepted shapes.
#[derive(Copy, Clone, Debug, PartialEq, Eq, Structural)]
pub enum ArgsError {
    Expected,
}

impl ArgsError {
    /// The diagnostic shown for a malformed argument list.
    pub fn message(&self) -> (r: &'static str)
        ensures
            r@ == "expected #[gat_trait] or #[gat_trait(?Send)]"@,
    {
        "expected #[gat_trait] or #[gat_trait(?Send)]"
    }
}

pub open spec fn is_punct(t: ArgToken, c: char) -> bool {
    t is Punct && t->Punct_0 == c
}

pub open spec fn is_ident(t: ArgToken, s: Seq<char>) -> bool {
    t is Ident && t->Ident_0@ == s
}

/// What a prefix of the tokens parses to, and how many tokens it takes:
/// `? Send` sets `local`; anything not starting with `?` takes nothing.
pub open spec fn try_parse_spec(t: Seq<ArgToken>) -> Option<(Args, nat)> {
    if t.len() > 0 && is_punct(t[0], '?') {
        if t.len() > 1 && is_ident(t[1], "Send"@) {
            Some((Args { local: true }, 2))
        } else {
            None
        }
    } else {
        Some((Args { local: false }, 0))
    }
}

/// The whole argument list: either empty or exactly `? Send`.
pub open spec fn parse_spec(t: Seq<ArgToken>) -> Option<Args> {
    if t.len() == 0 {
        Some(Args { local: false })
    } else if t.len() == 2 && is_punct(t[0], '?') && is_ident(t[1], "Send"@) {
        Some(Args { local: true })
    } else {
        None
    }
}

/// Reads the optional `?Send` at the front of the tokens and returns the
/// options with the number of tokens read.
pub fn try_parse(tokens: &Vec<ArgToken>) -> (r: Result<(Args, usize), ArgsError>)
    ensures
        match try_parse_spec(tokens@) {
            Some((a, n)) => r == Ok::<(Args, usize), ArgsError>((a, n as usize)),
            None => r == Err::<(Args, usize), ArgsError>(ArgsError::Expected),
        },
{
    if tokens.len() > 0 && matches!(tokens[0], ArgToken::Punct('?')) {
        if tokens.len() > 1 {
            if let ArgToken::Ident(s) = &tokens[1] {
                if str_eq(s.as_str(), "Send") {
                    return Ok((Args { local: true }, 2));
                }
            }
        }
        Err(ArgsError::Expected)
    } else {
        Ok((Args { local: false }, 0))
    }
}

impl Args {
    /// Parses the whole argument list of the attribute.
    pub fn parse(tokens: &Vec<ArgToken>) -> (r: Result<Args, ArgsError>)
        ensures
            match parse_spec(tokens@) {
                Some(a) => r == Ok::<Args, ArgsError>(a),
                None => r == Err::<Args, ArgsError>(ArgsError::Expected),
            },
    {
        match try_parse(tokens) {
            Ok((args, n)) => {
                if n == tokens.len() {
                    Ok(args)
                } else {
                    Err(ArgsError::Expected)
                }
            },
            Err(e) => Err(e),
        }
    }
}

} // verus!
