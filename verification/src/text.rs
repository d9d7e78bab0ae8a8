//! The `String` operation of std that the crate needs and vstd does not specify.
use vstd::prelude::*;

verus! {

/// std's `String::push`: appends one character to the end of the string.
#[verifier::external_body]
pub(crate) fn push_char(s: &mut String, c: char)
    ensures
        final(s)@ == old(s)@.push(c),
{
    s.push(c)
}

} // verus!
