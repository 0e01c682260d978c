//! A batch of reports: the JSON array that one upload carries.
use vstd::prelude::*;

use crate::error::{DecodeError, Fault};
use crate::json::{layer_of, parse_text, parsed_text, unfold, Layer};
use crate::report::{bare_of, BareReport, BareView};

verus! {

/// A report read from a batch, or why it could not be read, as views.
pub open spec fn bare_result_view(r: Result<BareReport, DecodeError>) -> Result<BareView, Fault> {
    match r {
        Ok(b) => Ok(b@),
        Err(e) => Err(e@),
    }
}

/// What a text reads as, as a batch: each element of the top-level array read
/// as a report on its own, in order. The whole batch fails only when the text
/// is not JSON, or not an array.
pub open spec fn batch_of(b: Seq<u8>) -> Result<Seq<Result<BareView, Fault>>, Fault> {
    match parsed_text(b) {
        None => Err(Fault::Syntax),
        Some(v) => match layer_of(v) {
            Layer::Array(items) => Ok(items@.map_values(|x: serde_json::Value| bare_of(x))),
            _ => Err(Fault::NotAnArray),
        },
    }
}

/// Reads a batch of reports from JSON text, keeping each body as JSON. A
/// report that cannot be read gives its error in its place, and the others
/// are still read.
pub fn parse_batch(text: &[u8]) -> (r: Result<Vec<Result<BareReport, DecodeError>>, DecodeError>)
    ensures
        match r {
            Ok(out) => batch_of(text@) == Ok::<Seq<Result<BareView, Fault>>, Fault>(
                out@.map_values(|x: Result<BareReport, DecodeError>| bare_result_view(x)),
            ),
            Err(e) => batch_of(text@) == Err::<Seq<Result<BareView, Fault>>, Fault>(e@),
        },
{
    let v = match parse_text(text) {
        Ok(v) => v,
        Err(_) => return Err(DecodeError::Syntax),
    };
    let items = match unfold(v) {
        Layer::Array(items) => items,
        _ => return Err(DecodeError::NotAnArray),
    };
    let ghost all = items@;
    let mut out: Vec<Result<BareReport, DecodeError>> = Vec::new();
    for item in it: items.into_iter()
        invariant
            it.seq() == all,
            out@.len() == it.index(),
            forall|i: int| 0 <= i < it.index() ==> bare_result_view(#[trigger] out@[i]) == bare_of(all[i]),
    {
        out.push(BareReport::from_json(item));
    }
    assert(out@.map_values(|x: Result<BareReport, DecodeError>| bare_result_view(x))
        =~= all.map_values(|x: serde_json::Value| bare_of(x)));
    Ok(out)
}

} // verus!
