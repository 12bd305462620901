//! Small trusted shims over std string operations that vstd leaves
//! unspecified, and verified character helpers built on them.

use vstd::prelude::*;

verus! {

/// Relies on str's `PartialEq`: equality of the character sequences.
pub assume_specification[ <str as PartialEq>::eq ](s: &str, other: &str) -> (res: bool)
    ensures
        res == (s@ == other@),
;

/// Relies on String::push: appends exactly the one character.
#[verifier::external_body]
pub fn push_char(s: &mut String, c: char)
    ensures
        final(s)@ == old(s)@ + seq![c],
{
    s.push(c)
}

} // verus!
