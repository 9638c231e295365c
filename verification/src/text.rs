use vstd::prelude::*;

verus! {

/// `String::push`. Claimed: the string afterwards is the string before with
/// the character appended at its end.
#[verifier::external_body]
pub(crate) fn push_char(s: &mut String, c: char)
    ensures
        final(s)@ == old(s)@.push(c),
{
    s.push(c)
}

} // verus!
