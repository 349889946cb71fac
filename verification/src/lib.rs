//! A result/error-propagation core: a two-variant outcome type with
//! short-circuit propagation, plus a provenance-tracking error container
//! that records every boundary it crosses on its way up a call chain.

use vstd::prelude::*;

pub mod err;
pub mod maybe;

pub use crate::maybe::Maybe;
pub use crate::maybe::Maybe::O;
pub use crate::maybe::Maybe::X;
pub use crate::err::Convertible;
pub use crate::err::Erased;
pub use crate::err::Location;
pub use crate::err::Traced;
pub use crate::err::TracedModel;
pub use crate::err::IF;

verus! {

/// An outcome whose failure state is a traced error: the shape every
/// propagation boundary hands upward.
pub type R<T> = Maybe<T, Traced>;

/// The fixed marker error produced when an absent optional is coerced into
/// the outcome type. It renders as the text `None`.
pub struct OptNone;

impl IF for OptNone {
    open spec fn spec_message(&self) -> Seq<char> {
        "None"@
    }

    fn message(&self) -> (s: String) {
        String::from_str("None")
    }
}

/// An outcome or result statically believed to be in one particular state.
/// Extracting the other state is excluded by precondition: a violated
/// belief signals a broken static guarantee elsewhere in the program, so no
/// recoverable path is offered for it. An unverified caller must test the
/// state first and, on a violation, abort rather than continue.
pub trait CertainResult: Sized {
    type T;

    type E;

    /// Whether the success state holds.
    spec fn certainly_ok(&self) -> bool;

    /// The success payload.
    spec fn payload_ok(self) -> Self::T;

    /// The failure payload.
    spec fn payload_err(self) -> Self::E;

    /// The success payload of a value certain to be in the success state.
    fn certain_ok(self) -> (r: Self::T)
        requires
            self.certainly_ok(),
        ensures
            r == self.payload_ok(),
    ;

    /// The failure payload of a value certain to be in the failure state.
    fn certain_err(self) -> (r: Self::E)
        requires
            !self.certainly_ok(),
        ensures
            r == self.payload_err(),
    ;
}

impl<T, E> CertainResult for Maybe<T, E> {
    type T = T;

    type E = E;

    open spec fn certainly_ok(&self) -> bool {
        self is O
    }

    open spec fn payload_ok(self) -> T {
        self->O_0
    }

    open spec fn payload_err(self) -> E {
        self->X_0
    }

    fn certain_ok(self) -> (r: T) {
        match self {
            Maybe::O(t) => t,
            Maybe::X(_) => vstd::pervasive::unreached(),
        }
    }

    fn certain_err(self) -> (r: E) {
        match self {
            Maybe::O(_) => vstd::pervasive::unreached(),
            Maybe::X(e) => e,
        }
    }
}

impl<T, E> CertainResult for Result<T, E> {
    type T = T;

    type E = E;

    open spec fn certainly_ok(&self) -> bool {
        self is Ok
    }

    open spec fn payload_ok(self) -> T {
        self->Ok_0
    }

    open spec fn payload_err(self) -> E {
        self->Err_0
    }

    fn certain_ok(self) -> (r: T) {
        match self {
            Ok(t) => t,
            Err(_) => vstd::pervasive::unreached(),
        }
    }

    fn certain_err(self) -> (r: E) {
        match self {
            Ok(_) => vstd::pervasive::unreached(),
            Err(e) => e,
        }
    }
}

} // verus!
