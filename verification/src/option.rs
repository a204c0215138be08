//! The rule for entry points that report through a success flag alone:
//! nothing on success, the service's error on failure.

use vstd::prelude::*;
use crate::handle::{NativeError, NativeObject, RawRef};

verus! {

/// What the caller is owed for a success flag and an error slot: nothing when
/// the flag is set, else the reference in the error slot.
pub open spec fn error_unless_ok(ok: bool, error: RawRef) -> Option<RawRef> {
    if ok {
        None
    } else {
        Some(error)
    }
}

/// The reference that an optional error owns.
pub open spec fn error_reference(outcome: Option<NativeError>) -> Option<RawRef> {
    match outcome {
        Some(error) => Some(error.reference()),
        None => None,
    }
}

/// `None` when `ok` is set; the error slot is then not looked at. Otherwise
/// the owner of the error in the slot, which the service must have filled.
pub fn some_cf_error_ref_unless_ok(ok: bool, cf_error_ref_option: Option<RawRef>) -> (outcome:
    Option<NativeError>)
    requires
        !ok ==> cf_error_ref_option.is_some() && !cf_error_ref_option.unwrap().is_null(),
    ensures
        ok ==> outcome.is_none(),
        !ok ==> error_reference(outcome) == cf_error_ref_option,
{
    if ok {
        None
    } else {
        let cf_error_ref = cf_error_ref_option.unwrap();
        let cf_error = NativeError::wrap_under_create_rule(cf_error_ref);

        Some(cf_error)
    }
}

/// The same rule on the raw error slot.
pub fn from_bool_and_error_to_option(ok: bool, error_ref: RawRef) -> (outcome: Option<NativeError>)
    requires
        !ok ==> !error_ref.is_null(),
    ensures
        error_reference(outcome) == error_unless_ok(ok, error_ref),
{
    if ok {
        None
    } else {
        let error = NativeError::wrap_under_create_rule(error_ref);
        Some(error)
    }
}

} // verus!
