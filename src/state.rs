use vstd::prelude::*;

use crate::error::ZfsError;
use crate::text::{chars_of, range_is, trim, trim_bounds};

verus! {

/// What a key-status token means: `Some(loaded)`, or `None` for a token outside the vocabulary.
pub open spec fn key_state_of(t: Seq<char>) -> Option<bool> {
    if trim(t) == "available"@ {
        Some(true)
    } else if trim(t) == "unavailable"@ {
        Some(false)
    } else {
        None
    }
}

/// What a mounted-flag token means: `Some(mounted)`, or `None` for a token outside the
/// vocabulary.
pub open spec fn mount_state_of(t: Seq<char>) -> Option<bool> {
    if trim(t) == "yes"@ {
        Some(true)
    } else if trim(t) == "no"@ {
        Some(false)
    } else {
        None
    }
}

/// Whether `t` is the token reported for a dataset to which encryption does not apply.
pub open spec fn is_not_applicable(t: Seq<char>) -> bool {
    trim(t) == "-"@
}

/// What a key-status token of a single-dataset query means: the not-applicable token counts
/// as loaded.
pub open spec fn key_status_of(t: Seq<char>) -> Option<bool> {
    if is_not_applicable(t) {
        Some(true)
    } else {
        key_state_of(t)
    }
}

/// Reads a key-status token: `available` is true, `unavailable` false, surrounding white
/// space ignored; any other token is an error that names it.
pub fn parse_key_available_state(state: &str) -> (r: Result<bool, ZfsError>)
    ensures
        match key_state_of(state@) {
            Some(b) => r == Ok::<bool, ZfsError>(b),
            None => r matches Err(ZfsError::UnexpectedStateForKey(t)) && t@ == state@,
        },
{
    let v = chars_of(state);
    let (lo, hi) = trim_bounds(&v);
    if range_is(&v, lo, hi, "available") {
        Ok(true)
    } else if range_is(&v, lo, hi, "unavailable") {
        Ok(false)
    } else {
        Err(ZfsError::UnexpectedStateForKey(state.to_owned()))
    }
}

/// Reads a mounted-flag token: `yes` is true, `no` false, surrounding white space ignored;
/// any other token is an error that names it.
pub fn parse_dataset_mounted_state(state: &str) -> (r: Result<bool, ZfsError>)
    ensures
        match mount_state_of(state@) {
            Some(b) => r == Ok::<bool, ZfsError>(b),
            None => r matches Err(ZfsError::UnexpectedStateForMount(t)) && t@ == state@,
        },
{
    let v = chars_of(state);
    let (lo, hi) = trim_bounds(&v);
    if range_is(&v, lo, hi, "yes") {
        Ok(true)
    } else if range_is(&v, lo, hi, "no") {
        Ok(false)
    } else {
        Err(ZfsError::UnexpectedStateForMount(state.to_owned()))
    }
}

/// Reads the key-status token of a single-dataset query: as
/// [`parse_key_available_state`], and the not-applicable token `-` reads as loaded.
pub fn parse_key_status(state: &str) -> (r: Result<bool, ZfsError>)
    ensures
        match key_status_of(state@) {
            Some(b) => r == Ok::<bool, ZfsError>(b),
            None => r matches Err(ZfsError::UnexpectedStateForKey(t)) && t@ == state@,
        },
{
    let v = chars_of(state);
    let (lo, hi) = trim_bounds(&v);
    if range_is(&v, lo, hi, "-") {
        Ok(true)
    } else {
        parse_key_available_state(state)
    }
}

/// Whether `state` is the not-applicable token `-`, surrounding white space ignored.
pub fn not_applicable(state: &str) -> (r: bool)
    ensures
        r == is_not_applicable(state@),
{
    let v = chars_of(state);
    let (lo, hi) = trim_bounds(&v);
    range_is(&v, lo, hi, "-")
}

} // verus!
