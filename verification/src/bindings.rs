//! The nine operations of the translocation service.
//!
//! Each operation takes the native entry point as a function value `native`.
//! It hands it the caller's references unchanged, calls it once, and turns
//! the reply into an `Option` or a `Result` by the rules of
//! [`crate::option`] and [`crate::result`]. Every contract below is stated
//! for whatever reply the entry point gives, as long as a failure comes with
//! an error.

use vstd::prelude::*;
use crate::handle::{Dictionary, NativeError, NativeObject, RawRef, Url};
use crate::option::{error_reference, error_unless_ok, some_cf_error_ref_unless_ok};
use crate::reply::{FlagReply, HandleReply, SlotReply};
use crate::result::{
    answer_references, from_options_with_bool, from_options_with_cf_type_ref, object_references,
    payload_or_error, slot_if_ok,
};

verus! {

/// The reference handed to the service for an optional destination: null
/// where the caller leaves the choice to the service.
pub open spec fn destination_reference(destination_path: Option<Url>) -> RawRef {
    match destination_path {
        Some(destination_path) => destination_path.reference(),
        None => RawRef { address: 0 },
    }
}

/// Makes the calling process the endpoint of the translocation service.
///
/// Returns nothing when the service reports success, else the owner of the
/// error that it reported.
pub fn start_listening<F: FnOnce() -> FlagReply>(native: F) -> (outcome: Option<NativeError>)
    requires
        native.requires(()),
        forall|reply: FlagReply| #[trigger] native.ensures((), reply) ==> reply.honours_contract(),
    ensures
        exists|reply: FlagReply| #[trigger]
            native.ensures((), reply) && error_reference(outcome) == error_unless_ok(
                reply.ok,
                reply.error,
            ),
{
    let reply = native();

    let error = reply.error.to_option();
    some_cf_error_ref_unless_ok(reply.ok, error)
}

/// Makes the calling process the endpoint of the translocation service, with
/// the caller's options.
///
/// The service is handed the reference that `options` wraps. Returns nothing
/// when the service reports success, else the owner of the error that it
/// reported.
pub fn start_listening_with_options<F: FnOnce(RawRef) -> FlagReply>(
    options: Dictionary,
    native: F,
) -> (outcome: Option<NativeError>)
    requires
        native.requires((options.reference(),)),
        forall|reply: FlagReply| #[trigger]
            native.ensures((options.reference(),), reply) ==> reply.honours_contract(),
    ensures
        exists|reply: FlagReply| #[trigger]
            native.ensures((options.reference(),), reply) && error_reference(outcome)
                == error_unless_ok(reply.ok, reply.error),
{
    let options = options.as_concrete_type_ref();

    let reply = native(options);

    let error = reply.error.to_option();
    some_cf_error_ref_unless_ok(reply.ok, error)
}

/// Translocates the directory at `path_to_translocate`, to `destination_path`
/// or, where that is `None`, to a place of the service's choosing.
///
/// The service is handed the reference of the path and that of the
/// destination, null for `None`. Returns the owner of the URL that it
/// created, else the owner of the error that it reported.
pub fn create_secure_directory_for_url<F: FnOnce(RawRef, RawRef) -> HandleReply>(
    path_to_translocate: Url,
    destination_path: Option<Url>,
    native: F,
) -> (result: Result<Url, NativeError>)
    requires
        native.requires(
            (path_to_translocate.reference(), destination_reference(destination_path)),
        ),
        forall|reply: HandleReply| #[trigger]
            native.ensures(
                (path_to_translocate.reference(), destination_reference(destination_path)),
                reply,
            ) ==> reply.honours_contract(),
    ensures
        exists|reply: HandleReply| #[trigger]
            native.ensures(
                (path_to_translocate.reference(), destination_reference(destination_path)),
                reply,
            ) && object_references(result) == payload_or_error(
                reply.url.to_option(),
                reply.error,
            ),
{
    let path_to_translocate = path_to_translocate.as_concrete_type_ref();
    let destination_path = match destination_path {
        Some(destination_path) => destination_path.as_concrete_type_ref(),
        None => RawRef::null(),
    };

    let reply = native(path_to_translocate, destination_path);

    let url = reply.url.to_option();
    let error = reply.error.to_option();
    from_options_with_cf_type_ref(url, error)
}

/// Translocates the directory at `path_to_translocate` to `destination_path`.
///
/// The service is handed the two references. Returns the owner of the URL
/// that it created, else the owner of the error that it reported.
pub fn create_generic<F: FnOnce(RawRef, RawRef) -> HandleReply>(
    path_to_translocate: Url,
    destination_path: Url,
    native: F,
) -> (result: Result<Url, NativeError>)
    requires
        native.requires((path_to_translocate.reference(), destination_path.reference())),
        forall|reply: HandleReply| #[trigger]
            native.ensures(
                (path_to_translocate.reference(), destination_path.reference()),
                reply,
            ) ==> reply.honours_contract(),
    ensures
        exists|reply: HandleReply| #[trigger]
            native.ensures(
                (path_to_translocate.reference(), destination_path.reference()),
                reply,
            ) && object_references(result) == payload_or_error(
                reply.url.to_option(),
                reply.error,
            ),
{
    let path_to_translocate = path_to_translocate.as_concrete_type_ref();
    let destination_path = destination_path.as_concrete_type_ref();

    let reply = native(path_to_translocate, destination_path);

    let url = reply.url.to_option();
    let error = reply.error.to_option();
    from_options_with_cf_type_ref(url, error)
}

/// Tells the service that the translocated process `pid` is running. The
/// service reports nothing back, and nothing is made up for it.
pub fn app_launch_checkin<F: FnOnce(libc::pid_t)>(pid: libc::pid_t, native: F)
    requires
        native.requires((pid,)),
    ensures
        native.ensures((pid,), ()),
{
    native(pid)
}

/// Asks the service whether what lies at `path` should run translocated.
///
/// The service is handed the reference of the path. Returns what it wrote to
/// the output slot when it reports success, else the owner of the error that
/// it reported; the slot is then not looked at.
pub fn url_should_run_translocated<F: FnOnce(RawRef) -> SlotReply>(path: Url, native: F) -> (result:
    Result<bool, NativeError>)
    requires
        native.requires((path.reference(),)),
        forall|reply: SlotReply| #[trigger]
            native.ensures((path.reference(),), reply) ==> reply.honours_contract(),
    ensures
        exists|reply: SlotReply| #[trigger]
            native.ensures((path.reference(),), reply) && answer_references(result)
                == payload_or_error(slot_if_ok(reply.ok, reply.slot), reply.error),
{
    let path = path.as_concrete_type_ref();

    let reply = native(path);

    let should_translocate = if reply.ok {
        Some(reply.slot)
    } else {
        None
    };
    let error = reply.error.to_option();
    from_options_with_bool(should_translocate, error)
}

/// Asks the service whether `path` is a translocated path.
///
/// The service is handed the reference of the path. Returns what it wrote to
/// the output slot when it reports success, else the owner of the error that
/// it reported; the slot is then not looked at. Nothing is remembered from
/// one call to the next.
pub fn is_translocated_url<F: FnOnce(RawRef) -> SlotReply>(path: Url, native: F) -> (result:
    Result<bool, NativeError>)
    requires
        native.requires((path.reference(),)),
        forall|reply: SlotReply| #[trigger]
            native.ensures((path.reference(),), reply) ==> reply.honours_contract(),
    ensures
        exists|reply: SlotReply| #[trigger]
            native.ensures((path.reference(),), reply) && answer_references(result)
                == payload_or_error(slot_if_ok(reply.ok, reply.slot), reply.error),
{
    let path = path.as_concrete_type_ref();

    let reply = native(path);

    let is_translocated = if reply.ok {
        Some(reply.slot)
    } else {
        None
    };
    let error = reply.error.to_option();
    from_options_with_bool(is_translocated, error)
}

/// Asks the service for the path that `translocated_path` was translocated
/// from.
///
/// The service is handed the reference of the path. Returns the owner of the
/// URL that it created, else the owner of the error that it reported.
pub fn create_original_path_for_url<F: FnOnce(RawRef) -> HandleReply>(
    translocated_path: Url,
    native: F,
) -> (result: Result<Url, NativeError>)
    requires
        native.requires((translocated_path.reference(),)),
        forall|reply: HandleReply| #[trigger]
            native.ensures((translocated_path.reference(),), reply) ==> reply.honours_contract(),
    ensures
        exists|reply: HandleReply| #[trigger]
            native.ensures((translocated_path.reference(),), reply) && object_references(result)
                == payload_or_error(reply.url.to_option(), reply.error),
{
    let translocated_path = translocated_path.as_concrete_type_ref();

    let reply = native(translocated_path);

    let url = reply.url.to_option();
    let error = reply.error.to_option();
    from_options_with_cf_type_ref(url, error)
}

/// Has the service unmount the translocated directory at `translocated_path`
/// and delete its mount point.
///
/// The service is handed the reference of the path. Returns nothing when it
/// reports success, else the owner of the error that it reported: the
/// directory then counts as still there.
pub fn delete_secure_directory<F: FnOnce(RawRef) -> FlagReply>(
    translocated_path: Url,
    native: F,
) -> (outcome: Option<NativeError>)
    requires
        native.requires((translocated_path.reference(),)),
        forall|reply: FlagReply| #[trigger]
            native.ensures((translocated_path.reference(),), reply) ==> reply.honours_contract(),
    ensures
        exists|reply: FlagReply| #[trigger]
            native.ensures((translocated_path.reference(),), reply) && error_reference(outcome)
                == error_unless_ok(reply.ok, reply.error),
{
    let translocated_path = translocated_path.as_concrete_type_ref();

    let reply = native(translocated_path);

    let error = reply.error.to_option();
    some_cf_error_ref_unless_ok(reply.ok, error)
}

} // verus!
