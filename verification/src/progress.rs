use vstd::prelude::*;

verus! {

/// The display configuration of the build spinner: a spinner glyph, a
/// caller-supplied prefix label, the tool's name, and a message region
/// that takes the remaining width.
pub open spec fn spec_spinner_template() -> Seq<char> {
    "{spinner} {prefix} trunk | {wide_msg}"@
}

/// The template the build spinner is configured with.
pub fn spinner_template() -> (s: &'static str)
    ensures
        s@ == spec_spinner_template(),
{
    "{spinner} {prefix} trunk | {wide_msg}"
}

} // verus!
