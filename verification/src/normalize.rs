//! Failure-tolerant normalization of probe results.
//!
//! Every probe may fail independently.  A scalar metric degrades to the
//! sentinel `"unknown"` and its failure is not reported further; a
//! structured metric degrades to an absent record together with exactly one
//! diagnostic line carrying the failure's detail.  Normalization never
//! fails: its results can be formatted unconditionally.

use vstd::prelude::*;
use crate::decimal::decimal_digits;
use crate::decimal::u64_to_decimal;

verus! {

/// The failure of one probe.  The detail is the probe error's own textual
/// rendering, captured at the boundary where the probe was made.
pub struct ProbeError {
    pub detail: String,
}

/// The sentinel shown in place of an unavailable metric.
pub open spec fn unknown_text() -> Seq<char> {
    "unknown"@
}

/// The text of a normalized textual scalar metric.
pub open spec fn scalar_text(r: Result<String, ProbeError>) -> Seq<char> {
    match r {
        Ok(v) => v@,
        Err(_) => unknown_text(),
    }
}

/// The text of a normalized numeric scalar metric.
pub open spec fn number_text(r: Result<u64, ProbeError>) -> Seq<char> {
    match r {
        Ok(v) => decimal_digits(v as int),
        Err(_) => unknown_text(),
    }
}

fn unknown_string() -> (s: String)
    ensures
        s@ == unknown_text(),
{
    String::from_str("unknown")
}

/// Scalar policy for textual metrics: the value passes through on success;
/// a failure degrades to `"unknown"` with no diagnostic.
pub fn normalize_scalar_text(r: Result<String, ProbeError>) -> (s: String)
    ensures
        s@ == scalar_text(r),
{
    match r {
        Ok(v) => v,
        Err(_) => unknown_string(),
    }
}

/// Scalar policy for numeric metrics: the decimal numeral on success,
/// `"unknown"` on failure, with no diagnostic.
pub fn normalize_scalar_number(r: Result<u64, ProbeError>) -> (s: String)
    ensures
        s@ == number_text(r),
{
    match r {
        Ok(v) => u64_to_decimal(v),
        Err(_) => unknown_string(),
    }
}

/// Structured policy: the record passes through whole on success; a failure
/// yields no record and exactly one diagnostic line, carrying the failure's
/// detail verbatim.
pub fn normalize_structured<T>(r: Result<T, ProbeError>) -> (out: (Option<T>, Option<String>))
    ensures
        match r {
            Ok(v) => out.0 == Some(v) && out.1 is None,
            Err(e) => out.0 is None && out.1 == Some(e.detail),
        },
{
    match r {
        Ok(v) => (Some(v), None),
        Err(e) => (None, Some(e.detail)),
    }
}

} // verus!
