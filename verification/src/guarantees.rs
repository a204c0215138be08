//! What holds of the operations taken together, proved from their contracts.

use vstd::prelude::*;
use vstd::multiset::Multiset;
use crate::handle::{NativeError, NativeObject, RawRef, Url};
use crate::option::{error_reference, error_unless_ok};
use crate::reply::{FlagReply, HandleReply, SlotReply};
use crate::result::{answer_references, object_references, payload_or_error, slot_if_ok};

verus! {

/// The references that the owners in an optional error wrap.
pub open spec fn wrapped_in_outcome(outcome: Option<NativeError>) -> Multiset<RawRef> {
    match outcome {
        Some(error) => Multiset::singleton(error.reference()),
        None => Multiset::empty(),
    }
}

/// The references that the owners in an answer wrap.
pub open spec fn wrapped_in_answer(result: Result<bool, NativeError>) -> Multiset<RawRef> {
    match result {
        Ok(_) => Multiset::empty(),
        Err(error) => Multiset::singleton(error.reference()),
    }
}

/// The references that the owners in a result wrap.
pub open spec fn wrapped_in_result(result: Result<Url, NativeError>) -> Multiset<RawRef> {
    match result {
        Ok(url) => Multiset::singleton(url.reference()),
        Err(error) => Multiset::singleton(error.reference()),
    }
}

/// Under a set success flag the caller of a flag-only operation sees nothing:
/// no error, whatever the error slot holds.
pub proof fn flag_success_shows_no_error(reply: FlagReply, outcome: Option<NativeError>)
    requires
        reply.ok,
        error_reference(outcome) == error_unless_ok(reply.ok, reply.error),
    ensures
        outcome.is_none(),
{
}

/// Under a set success flag the caller of a question sees exactly what the
/// output slot holds, and no error, whatever the error slot holds.
pub proof fn slot_success_shows_the_answer(reply: SlotReply, result: Result<bool, NativeError>)
    requires
        reply.ok,
        answer_references(result) == payload_or_error(
            slot_if_ok(reply.ok, reply.slot),
            reply.error,
        ),
    ensures
        result == Ok::<bool, NativeError>(reply.slot),
{
}

/// When the service returns an object the caller sees an owner of exactly
/// that object, and no error, whatever the error slot holds.
pub proof fn handle_success_shows_the_object(reply: HandleReply, result: Result<Url, NativeError>)
    requires
        !reply.url.is_null(),
        object_references(result) == payload_or_error(reply.url.to_option(), reply.error),
    ensures
        result.is_ok(),
        result.unwrap().reference() == reply.url,
{
}

/// Under a cleared success flag the caller of a flag-only operation sees one
/// error: the owner of what the error slot holds.
pub proof fn flag_failure_shows_the_error(reply: FlagReply, outcome: Option<NativeError>)
    requires
        !reply.ok,
        error_reference(outcome) == error_unless_ok(reply.ok, reply.error),
    ensures
        outcome.is_some(),
        outcome.unwrap().reference() == reply.error,
{
}

/// Under a cleared success flag the caller of a question sees one error, the
/// owner of what the error slot holds, and no answer: what the output slot
/// holds makes no difference.
pub proof fn slot_failure_shows_the_error(reply: SlotReply, result: Result<bool, NativeError>)
    requires
        !reply.ok,
        answer_references(result) == payload_or_error(
            slot_if_ok(reply.ok, reply.slot),
            reply.error,
        ),
    ensures
        result.is_err(),
        result.unwrap_err().reference() == reply.error,
        payload_or_error(slot_if_ok(reply.ok, reply.slot), reply.error) == payload_or_error(
            slot_if_ok(reply.ok, !reply.slot),
            reply.error,
        ),
{
}

/// When the service returns no object the caller sees one error, the owner
/// of what the error slot holds, and no object.
pub proof fn handle_failure_shows_the_error(reply: HandleReply, result: Result<Url, NativeError>)
    requires
        reply.url.is_null(),
        object_references(result) == payload_or_error(reply.url.to_option(), reply.error),
    ensures
        result.is_err(),
        result.unwrap_err().reference() == reply.error,
{
}

/// The rule on a raw error slot and the rule on an optional error give the
/// same thing, once the slot is read as an option: a failure shows the
/// reference in the slot either way.
pub proof fn raw_and_optional_rules_agree(
    ok: bool,
    error: RawRef,
    by_raw: Option<NativeError>,
    by_option: Option<NativeError>,
)
    requires
        !ok ==> !error.is_null(),
        error_reference(by_raw) == error_unless_ok(ok, error),
        ok ==> by_option.is_none(),
        !ok ==> error_reference(by_option) == error.to_option(),
    ensures
        error_reference(by_raw) == error_reference(by_option),
{
}

/// Each reply gives rise to exactly one owner, of the reference that the
/// reply's success decides: the returned object where there is one, else the
/// error. The other slot is never wrapped.
pub proof fn one_owner_for_each_reply(reply: HandleReply, result: Result<Url, NativeError>)
    requires
        object_references(result) == payload_or_error(reply.url.to_option(), reply.error),
    ensures
        wrapped_in_result(result).len() == 1,
        wrapped_in_result(result) == Multiset::singleton(
            if reply.url.is_null() {
                reply.error
            } else {
                reply.url
            },
        ),
{
}

/// A flag-only operation wraps the error when the flag is cleared and
/// nothing when it is set; a question likewise.
pub proof fn an_error_is_wrapped_on_failure_alone(
    flag: FlagReply,
    outcome: Option<NativeError>,
    slot: SlotReply,
    answer: Result<bool, NativeError>,
)
    requires
        error_reference(outcome) == error_unless_ok(flag.ok, flag.error),
        answer_references(answer) == payload_or_error(slot_if_ok(slot.ok, slot.slot), slot.error),
    ensures
        wrapped_in_outcome(outcome) == (if flag.ok {
            Multiset::empty()
        } else {
            Multiset::singleton(flag.error)
        }),
        wrapped_in_answer(answer) == (if slot.ok {
            Multiset::empty()
        } else {
            Multiset::singleton(slot.error)
        }),
{
}

/// References pass through unaltered, there and back. Take a service that,
/// asked for the original of whatever it created for `path`, returns `path`.
/// Then a caller who translocates `path` and asks for the original of what
/// came back holds an owner of `path`.
pub proof fn round_trip_returns_the_original<C, O>(
    create: C,
    original: O,
    path: RawRef,
    destination: RawRef,
    translocated: Result<Url, NativeError>,
    recovered: Result<Url, NativeError>,
) where C: FnOnce(RawRef, RawRef) -> HandleReply, O: FnOnce(RawRef) -> HandleReply
    requires
        !path.is_null(),
        forall|created: HandleReply, found: HandleReply|
            #[trigger] create.ensures((path, destination), created) && #[trigger] original.ensures(
                (created.url,),
                found,
            ) ==> !created.url.is_null() && found.url == path,
        exists|created: HandleReply| #[trigger]
            create.ensures((path, destination), created) && object_references(translocated)
                == payload_or_error(created.url.to_option(), created.error),
        translocated.is_ok(),
        exists|found: HandleReply| #[trigger]
            original.ensures((translocated.unwrap().reference(),), found) && object_references(
                recovered,
            ) == payload_or_error(found.url.to_option(), found.error),
    ensures
        recovered.is_ok(),
        recovered.unwrap().reference() == path,
{
}

/// Answers pass through unaltered. Take a service that reports whatever it
/// created for `path` as translocated. Then a caller who translocates `path`
/// and asks about what came back is answered `true`.
pub proof fn created_path_is_reported_translocated<C, Q>(
    create: C,
    query: Q,
    path: RawRef,
    destination: RawRef,
    translocated: Result<Url, NativeError>,
    answer: Result<bool, NativeError>,
) where C: FnOnce(RawRef, RawRef) -> HandleReply, Q: FnOnce(RawRef) -> SlotReply
    requires
        forall|created: HandleReply, told: SlotReply|
            #[trigger] create.ensures((path, destination), created) && #[trigger] query.ensures(
                (created.url,),
                told,
            ) ==> !created.url.is_null() && told.ok && told.slot,
        exists|created: HandleReply| #[trigger]
            create.ensures((path, destination), created) && object_references(translocated)
                == payload_or_error(created.url.to_option(), created.error),
        translocated.is_ok(),
        exists|told: SlotReply| #[trigger]
            query.ensures((translocated.unwrap().reference(),), told) && answer_references(answer)
                == payload_or_error(slot_if_ok(told.ok, told.slot), told.error),
    ensures
        answer == Ok::<bool, NativeError>(true),
{
}

/// A path that the service reports as not translocated is reported so to the
/// caller.
pub proof fn untranslocated_path_is_reported_so<Q>(
    query: Q,
    path: RawRef,
    answer: Result<bool, NativeError>,
) where Q: FnOnce(RawRef) -> SlotReply
    requires
        forall|told: SlotReply| #[trigger] query.ensures((path,), told) ==> told.ok && !told.slot,
        exists|told: SlotReply| #[trigger]
            query.ensures((path,), told) && answer_references(answer) == payload_or_error(
                slot_if_ok(told.ok, told.slot),
                told.error,
            ),
    ensures
        answer == Ok::<bool, NativeError>(false),
{
}

/// Nothing is remembered between calls. Take a service that, once it has
/// reported a directory as deleted, no longer reports its path as
/// translocated. Then a caller who saw the deletion succeed is never
/// answered `true` for that path.
pub proof fn deleted_directory_is_not_reported_translocated<D, Q>(
    delete: D,
    query: Q,
    path: RawRef,
    deleted: Option<NativeError>,
    answer: Result<bool, NativeError>,
) where D: FnOnce(RawRef) -> FlagReply, Q: FnOnce(RawRef) -> SlotReply
    requires
        forall|gone: FlagReply, told: SlotReply|
            #[trigger] delete.ensures((path,), gone) && gone.ok && #[trigger] query.ensures(
                (path,),
                told,
            ) ==> !(told.ok && told.slot),
        exists|gone: FlagReply| #[trigger]
            delete.ensures((path,), gone) && error_reference(deleted) == error_unless_ok(
                gone.ok,
                gone.error,
            ),
        deleted.is_none(),
        exists|told: SlotReply| #[trigger]
            query.ensures((path,), told) && answer_references(answer) == payload_or_error(
                slot_if_ok(told.ok, told.slot),
                told.error,
            ),
    ensures
        answer != Ok::<bool, NativeError>(true),
{
}

} // verus!
