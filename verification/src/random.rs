//! The random number utility: defaults for the optional bounds, range
//! validation, and a uniformly drawn sample from the inclusive range.

use vstd::prelude::*;
use vstd::string::StringExecFns;
use rand::Rng;
use crate::errors::{Error, spec_invalid_range_details};

verus! {

/// Relies on rand::thread_rng and rand::Rng::gen_range: the sample of a
/// non-empty inclusive range lies within it (and is uniformly distributed,
/// which no caller here depends on).
#[verifier::external_body]
fn sample_in_range(min: u8, max: u8) -> (r: u8)
    requires
        min <= max,
    ensures
        min <= r <= max,
{
    let mut rng = rand::thread_rng();
    rng.gen_range(min..=max)
}

/// Applies the documented defaults to the optional query parameters:
/// `min` falls back to 0 and `max` to 255.
pub fn resolve_params(min: Option<u8>, max: Option<u8>) -> (r: (u8, u8))
    ensures
        r.0 == (match min {
            Some(m) => m,
            None => 0u8,
        }),
        r.1 == (match max {
            Some(m) => m,
            None => 255u8,
        }),
{
    let lo = match min {
        Some(m) => m,
        None => 0,
    };
    let hi = match max {
        Some(m) => m,
        None => 255,
    };
    (lo, hi)
}

/// Draws one number from the inclusive range `[min, max]`, or reports an
/// invalid range exactly when `min > max`.
pub fn generate(min: u8, max: u8) -> (r: Result<u8, Error>)
    ensures
        min <= max ==> (r matches Ok(v) && min <= v <= max),
        min > max ==> (r matches Err(e) && e matches Error::InvalidRange(d)
            && d@ == spec_invalid_range_details()),
{
    if min > max {
        return Err(
            Error::InvalidRange(
                String::from_str("Minimum value cannot be greater than maximum value."),
            ),
        );
    }
    Ok(sample_in_range(min, max))
}

/// The whole random-number request: defaults applied, range validated, one
/// sample drawn.
pub fn random_number(min: Option<u8>, max: Option<u8>) -> (r: Result<u8, Error>)
    ensures
        ({
            let lo = match min {
                Some(m) => m,
                None => 0u8,
            };
            let hi = match max {
                Some(m) => m,
                None => 255u8,
            };
            &&& lo <= hi ==> (r matches Ok(v) && lo <= v <= hi)
            &&& lo > hi ==> (r matches Err(e) && e matches Error::InvalidRange(d)
                && d@ == spec_invalid_range_details())
        }),
{
    let (lo, hi) = resolve_params(min, max);
    generate(lo, hi)
}

} // verus!
