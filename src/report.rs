use vstd::prelude::*;
use vstd::string::StringExecFns;

verus! {

/// How a flag is written in a report line.
pub open spec fn flag_text(b: bool) -> Seq<char> {
    if b {
        "true"@
    } else {
        "false"@
    }
}

/// The text of a flag, as it stands in a report line.
pub fn flag_str(b: bool) -> (r: &'static str)
    ensures
        r@ == flag_text(b),
{
    if b {
        "true"
    } else {
        "false"
    }
}

/// Appends a flag's text to `line`.
pub fn push_flag(line: &mut String, b: bool)
    ensures
        final(line)@ == old(line)@ + flag_text(b),
{
    line.append(flag_str(b));
}

} // verus!
