//! The rule for entry points that return a payload: the payload on success,
//! the service's error on failure, never both and never neither.

use vstd::prelude::*;
use crate::handle::{NativeError, NativeObject, RawRef, Url};

verus! {

/// What the caller is owed for an optional payload and an error slot: the
/// payload where there is one, else the reference in the error slot.
pub open spec fn payload_or_error<P>(payload: Option<P>, error: RawRef) -> Result<P, RawRef> {
    match payload {
        Some(payload) => Ok(payload),
        None => Err(error),
    }
}

/// An answer from an output slot: the slot counts only under a set flag.
pub open spec fn slot_if_ok(ok: bool, slot: bool) -> Option<bool> {
    if ok {
        Some(slot)
    } else {
        None
    }
}

/// A result with its error owner replaced by the reference it wraps.
pub open spec fn answer_references(result: Result<bool, NativeError>) -> Result<bool, RawRef> {
    match result {
        Ok(answer) => Ok(answer),
        Err(error) => Err(error.reference()),
    }
}

/// A result with each owner replaced by the reference it wraps.
pub open spec fn object_references<T: NativeObject>(result: Result<T, NativeError>) -> Result<
    RawRef,
    RawRef,
> {
    match result {
        Ok(object) => Ok(object.reference()),
        Err(error) => Err(error.reference()),
    }
}

/// The answer where there is one; the error slot is then not looked at.
/// Otherwise the owner of the error in the slot, which the service must have
/// filled.
pub fn from_options_with_bool(
    bool_option: Option<bool>,
    cf_error_ref_option: Option<RawRef>,
) -> (result: Result<bool, NativeError>)
    requires
        bool_option.is_none() ==> cf_error_ref_option.is_some()
            && !cf_error_ref_option.unwrap().is_null(),
    ensures
        bool_option.is_some() ==> result == Ok::<bool, NativeError>(bool_option.unwrap()),
        bool_option.is_none() ==> answer_references(result) == Err::<bool, RawRef>(
            cf_error_ref_option.unwrap(),
        ),
{
    match bool_option {
        Some(answer) => Ok(answer),
        None => {
            let cf_error_ref = cf_error_ref_option.unwrap();
            let cf_error = NativeError::wrap_under_create_rule(cf_error_ref);

            Err(cf_error)
        },
    }
}

/// The owner of the returned object where there is one; the error slot is
/// then not looked at. Otherwise the owner of the error in the slot, which
/// the service must have filled. Exactly one reference is wrapped.
pub fn from_options_with_cf_type_ref<T: NativeObject>(
    cf_type_ref_option: Option<RawRef>,
    cf_error_ref_option: Option<RawRef>,
) -> (result: Result<T, NativeError>)
    requires
        cf_type_ref_option.is_some() ==> !cf_type_ref_option.unwrap().is_null(),
        cf_type_ref_option.is_none() ==> cf_error_ref_option.is_some()
            && !cf_error_ref_option.unwrap().is_null(),
    ensures
        cf_type_ref_option.is_some() ==> object_references(result) == Ok::<RawRef, RawRef>(
            cf_type_ref_option.unwrap(),
        ),
        cf_type_ref_option.is_none() ==> object_references(result) == Err::<RawRef, RawRef>(
            cf_error_ref_option.unwrap(),
        ),
{
    match cf_type_ref_option {
        Some(cf_type_ref) => {
            let cf_type = T::wrap_under_create_rule(cf_type_ref);

            Ok(cf_type)
        },
        None => {
            let cf_error_ref = cf_error_ref_option.unwrap();
            let cf_error = NativeError::wrap_under_create_rule(cf_error_ref);

            Err(cf_error)
        },
    }
}

/// The same rule for an answer on the raw error slot. `bool_ref` stands for
/// the nullable reference to the output slot: `None` is null, `Some` holds
/// what the slot holds.
pub fn from_bool_and_error_to_result(bool_ref: Option<bool>, error_ref: RawRef) -> (result: Result<
    bool,
    NativeError,
>)
    requires
        bool_ref.is_none() ==> !error_ref.is_null(),
    ensures
        answer_references(result) == payload_or_error(bool_ref, error_ref),
{
    match bool_ref {
        Some(answer) => Ok(answer),
        None => {
            let error = NativeError::wrap_under_create_rule(error_ref);
            Err(error)
        },
    }
}

/// The same rule for a returned URL on the raw references: a URL reference
/// that is not null is wrapped, else the error reference is.
pub fn from_url_and_error_to_result(url_ref: RawRef, error_ref: RawRef) -> (result: Result<
    Url,
    NativeError,
>)
    requires
        url_ref.is_null() ==> !error_ref.is_null(),
    ensures
        object_references(result) == payload_or_error(url_ref.to_option(), error_ref),
{
    if !url_ref.is_null() {
        let url = Url::wrap_under_create_rule(url_ref);
        Ok(url)
    } else {
        let error = NativeError::wrap_under_create_rule(error_ref);
        Err(error)
    }
}

} // verus!
