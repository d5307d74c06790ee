//! One recorded propagation point of an error.

use vstd::prelude::*;

verus! {

/// The decimal digits of `n`, most significant first, without sign or leading zeros.
pub open spec fn decimal(n: nat) -> Seq<char>
    decreases n,
{
    if n < 10 {
        seq![digit_char(n)]
    } else {
        decimal(n / 10).push(digit_char(n % 10))
    }
}

/// The character of the digit `d` (below ten).
pub open spec fn digit_char(d: nat) -> char {
    if d == 0 { '0' }
    else if d == 1 { '1' }
    else if d == 2 { '2' }
    else if d == 3 { '3' }
    else if d == 4 { '4' }
    else if d == 5 { '5' }
    else if d == 6 { '6' }
    else if d == 7 { '7' }
    else if d == 8 { '8' }
    else { '9' }
}

/// Relies on `u32`'s `Display` (through `ToString::to_string`): the decimal digits of the number.
#[verifier::external_body]
pub(crate) fn decimal_text(n: u64) -> (r: String)
    ensures
        r@ == decimal(n as nat),
{
    n.to_string()
}

/// Where an error passed: the file and line of the propagation point, the function or method
/// that it left, and the module path of a free function or the type name of a method.
#[derive(Debug, Clone, Copy, PartialEq, Eq)]
pub struct Location {
    pub file: &'static str,
    pub line: u32,
    pub func: &'static str,
    /// Module path for function, struct/trait name for method.
    pub module: &'static str,
}

/// How a frame reads: `<file>:<line> <module>::<func>()`.
pub open spec fn frame_text(l: Location) -> Seq<char> {
    l.file@ + seq![':'] + decimal(l.line as nat) + seq![' '] + l.module@ + seq![':', ':'] + l.func@
        + seq!['(', ')']
}

impl Location {
    /// Renders the frame as `<file>:<line> <module>::<func>()`.
    pub fn to_string(&self) -> (r: String)
        ensures
            r@ == frame_text(*self),
    {
        let mut s = String::from_str(self.file);
        s.append(":");
        let digits = decimal_text(self.line as u64);
        s.append(digits.as_str());
        s.append(" ");
        s.append(self.module);
        s.append("::");
        s.append(self.func);
        s.append("()");
        proof {
            reveal_strlit(":");
            reveal_strlit(" ");
            reveal_strlit("::");
            reveal_strlit("()");
        }
        assert(s@ =~= frame_text(*self));
        s
    }
}

} // verus!
