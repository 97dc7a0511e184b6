//! The message a refused mixed-flow or composite-grade analysis carries to
//! the caller. The truck curves are digitised only for the grades and
//! speeds of the published examples, and the analysis names the exhibit
//! that would have to be digitised; the message keeps that text whole.
use vstd::prelude::*;

verus! {

/// "`what`: `detail`", the detail kept as the analysis gave it.
pub fn analysis_error(what: &str, detail: &str) -> (r: String)
    ensures
        r@ == what@ + ": "@ + detail@,
{
    let mut msg = String::from_str(what);
    msg.append(": ");
    msg.append(detail);
    msg
}

} // verus!
