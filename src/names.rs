use vstd::prelude::*;

use heck::ToUpperCamelCase;

verus! {

/// The upper camel case form of a name, as heck's `ToUpperCamelCase` writes it.
pub uninterp spec fn upper_camel_of(s: Seq<char>) -> Seq<char>;

/// Relies on heck's `<str as ToUpperCamelCase>::to_upper_camel_case`: its
/// result depends on the characters of `s` alone.
#[verifier::external_body]
fn to_upper_camel(s: &str) -> (r: String)
    ensures
        r@ == upper_camel_of(s@),
{
    s.to_upper_camel_case()
}

/// The name of the associated future type of the method `func`, before
/// the change of case.
pub open spec fn result_future_source(func: Seq<char>) -> Seq<char> {
    func + "_result_future"@
}

/// The name of the associated type that holds the future returned by the
/// method `func`: `run` gives `RunResultFuture`.
pub fn upper_camel_case_ret_future(func: &str) -> (r: String)
    ensures
        r@ == upper_camel_of(result_future_source(func@)),
{
    let full = String::from_str(func).concat("_result_future");
    to_upper_camel(full.as_str())
}

/// The decimal digit for `d < 10`.
pub open spec fn digit_char(d: nat) -> char {
    if d == 0 { '0' }
    else if d == 1 { '1' }
    else if d == 2 { '2' }
    else if d == 3 { '3' }
    else if d == 4 { '4' }
    else if d == 5 { '5' }
    else if d == 6 { '6' }
    else if d == 7 { '7' }
    else if d == 8 { '8' }
    else { '9' }
}

/// The decimal digits of `n`, most significant first, with no leading zero.
pub open spec fn decimal(n: nat) -> Seq<char>
    decreases n,
{
    if n < 10 {
        seq![digit_char(n)]
    } else {
        decimal(n / 10) + seq![digit_char(n % 10)]
    }
}

fn digit_str(d: usize) -> (r: &'static str)
    requires
        d < 10,
    ensures
        r@ == seq![digit_char(d as nat)],
{
    proof {
        reveal_strlit("0");
        reveal_strlit("1");
        reveal_strlit("2");
        reveal_strlit("3");
        reveal_strlit("4");
        reveal_strlit("5");
        reveal_strlit("6");
        reveal_strlit("7");
        reveal_strlit("8");
        reveal_strlit("9");
    }
    if d == 0 { "0" }
    else if d == 1 { "1" }
    else if d == 2 { "2" }
    else if d == 3 { "3" }
    else if d == 4 { "4" }
    else if d == 5 { "5" }
    else if d == 6 { "6" }
    else if d == 7 { "7" }
    else if d == 8 { "8" }
    else { "9" }
}

/// Writes `n` in decimal.
pub fn decimal_string(n: usize) -> (r: String)
    ensures
        r@ == decimal(n as nat),
{
    let mut rest: usize = n / 10;
    let mut s = String::from_str(digit_str(n % 10));
    while rest > 0
        invariant
            decimal(n as nat) == if rest == 0 { s@ } else { decimal(rest as nat) + s@ },
        decreases rest,
    {
        let d = rest % 10;
        let next = rest / 10;
        assert(decimal(rest as nat) == (if next == 0 { Seq::<char>::empty() } else { decimal(next as nat) }) + seq![digit_char(d as nat)]);
        s = String::from_str(digit_str(d)).concat(s.as_str());
        rest = next;
        assert(decimal(n as nat) == if rest == 0 { s@ } else { decimal(rest as nat) + s@ });
    }
    s
}

/// The name given to the argument at position `i` whose pattern is not a
/// plain binding: `__arg` followed by `i` in decimal.
pub fn positional_arg_name(i: usize) -> (r: String)
    ensures
        r@ == "__arg"@ + decimal(i as nat),
{
    let digits = decimal_string(i);
    String::from_str("__arg").concat(digits.as_str())
}

} // verus!
