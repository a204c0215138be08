//! Native references and the owners that wrap them.

use vstd::prelude::*;

verus! {

/// The address of a native object as it crosses the boundary. Address zero is
/// the null reference. A raw reference owns nothing.
#[derive(Clone, Copy, Debug, PartialEq, Eq, Structural)]
pub struct RawRef {
    pub address: usize,
}

impl RawRef {
    /// The null reference.
    pub fn null() -> (reference: RawRef)
        ensures
            reference.address == 0,
            reference.is_null(),
    {
        RawRef { address: 0 }
    }

    /// The reference to the object at `address`.
    pub fn new(address: usize) -> (reference: RawRef)
        ensures
            reference.address == address,
    {
        RawRef { address }
    }

    pub open spec fn spec_is_null(self) -> bool {
        self.address == 0
    }

    /// Whether this is the null reference.
    #[verifier::when_used_as_spec(spec_is_null)]
    pub fn is_null(self) -> (null: bool)
        ensures
            null == self.spec_is_null(),
    {
        self.address == 0
    }

    pub open spec fn spec_to_option(self) -> Option<RawRef> {
        if self.is_null() {
            None
        } else {
            Some(self)
        }
    }

    /// A nullable reference as an option: `None` for null, else the
    /// reference itself, unchanged.
    #[verifier::when_used_as_spec(spec_to_option)]
    pub fn to_option(self) -> (option: Option<RawRef>)
        ensures
            option == self.spec_to_option(),
    {
        if !self.is_null() {
            Some(self)
        } else {
            None
        }
    }
}

/// An owner of one native object. The object was handed over by the service
/// under the create rule: the owner holds the only claim on it, and whoever
/// ends the owner's life releases the object, once.
pub trait NativeObject: Sized {
    /// The reference that this owner wraps. It is never null.
    spec fn reference(&self) -> RawRef;

    /// The wrapped reference, for handing to a native call. Ownership stays
    /// with `self`.
    fn as_concrete_type_ref(&self) -> (reference: RawRef)
        ensures
            reference == self.reference(),
            !reference.is_null(),
    ;

    /// Takes ownership of the object behind a reference that the service
    /// returned. The reference is kept as it is.
    fn wrap_under_create_rule(reference: RawRef) -> (object: Self)
        requires
            !reference.is_null(),
        ensures
            object.reference() == reference,
    ;
}

/// Owner of a native URL object.
#[derive(Debug, PartialEq, Eq)]
pub struct Url {
    reference: RawRef,
}

impl Url {
    #[verifier::type_invariant]
    spec fn holds_object(self) -> bool {
        !self.reference.is_null()
    }
}

impl NativeObject for Url {
    closed spec fn reference(&self) -> RawRef {
        self.reference
    }

    fn as_concrete_type_ref(&self) -> (reference: RawRef) {
        proof {
            use_type_invariant(self);
        }
        self.reference
    }

    fn wrap_under_create_rule(reference: RawRef) -> (object: Self) {
        Url { reference }
    }
}

/// Owner of a native error object.
#[derive(Debug, PartialEq, Eq)]
pub struct NativeError {
    reference: RawRef,
}

impl NativeError {
    #[verifier::type_invariant]
    spec fn holds_object(self) -> bool {
        !self.reference.is_null()
    }
}

impl NativeObject for NativeError {
    closed spec fn reference(&self) -> RawRef {
        self.reference
    }

    fn as_concrete_type_ref(&self) -> (reference: RawRef) {
        proof {
            use_type_invariant(self);
        }
        self.reference
    }

    fn wrap_under_create_rule(reference: RawRef) -> (object: Self) {
        NativeError { reference }
    }
}

/// Owner of a native dictionary object.
#[derive(Debug, PartialEq, Eq)]
pub struct Dictionary {
    reference: RawRef,
}

impl Dictionary {
    #[verifier::type_invariant]
    spec fn holds_object(self) -> bool {
        !self.reference.is_null()
    }
}

impl NativeObject for Dictionary {
    closed spec fn reference(&self) -> RawRef {
        self.reference
    }

    fn as_concrete_type_ref(&self) -> (reference: RawRef) {
        proof {
            use_type_invariant(self);
        }
        self.reference
    }

    fn wrap_under_create_rule(reference: RawRef) -> (object: Self) {
        Dictionary { reference }
    }
}

} // verus!
