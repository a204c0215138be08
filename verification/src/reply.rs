//! What a native entry point hands back, as plain values.

use vstd::prelude::*;
use crate::handle::RawRef;

verus! {

/// Reply of an entry point that reports through a success flag alone.
#[derive(Clone, Copy, Debug, PartialEq, Eq, Structural)]
pub struct FlagReply {
    /// The success flag.
    pub ok: bool,
    /// The error slot: filled by the service when it fails.
    pub error: RawRef,
}

/// Reply of an entry point that returns a newly created object.
#[derive(Clone, Copy, Debug, PartialEq, Eq, Structural)]
pub struct HandleReply {
    /// The returned reference. Not null means success.
    pub url: RawRef,
    /// The error slot: filled by the service when it fails.
    pub error: RawRef,
}

/// Reply of an entry point that answers a question through an output slot.
#[derive(Clone, Copy, Debug, PartialEq, Eq, Structural)]
pub struct SlotReply {
    /// The success flag.
    pub ok: bool,
    /// The output slot. What it holds means something only when `ok` is set.
    pub slot: bool,
    /// The error slot: filled by the service when it fails.
    pub error: RawRef,
}

impl FlagReply {
    /// The service's side of the bargain: a failure comes with an error.
    pub open spec fn honours_contract(self) -> bool {
        !self.ok ==> !self.error.is_null()
    }
}

impl HandleReply {
    /// The service's side of the bargain: a failure comes with an error.
    pub open spec fn honours_contract(self) -> bool {
        self.url.is_null() ==> !self.error.is_null()
    }
}

impl SlotReply {
    /// The service's side of the bargain: a failure comes with an error.
    pub open spec fn honours_contract(self) -> bool {
        !self.ok ==> !self.error.is_null()
    }
}

} // verus!
