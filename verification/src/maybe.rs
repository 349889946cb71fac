//! The two-variant outcome type: success with a value or failure with an
//! error, together with its algebraic combinators and the short-circuit
//! propagation protocol that funnels every failure through the conversion
//! dispatch.

use vstd::prelude::*;

use crate::err::append_model;
use crate::err::convert;
use crate::err::fresh_model;
use crate::err::Convertible;
use crate::err::Location;
use crate::err::Traced;
use crate::err::TracedModel;
use crate::err::IF;
use crate::OptNone;

verus! {

/// An outcome: either success with a value (`O`) or failure with an
/// error (`X`). Exactly one state holds at any time.
pub enum Maybe<T, E> {
    O(T),
    X(E),
}

impl<T, E> Maybe<T, E> {
    /// Whether this outcome is a success.
    pub fn is_ok(&self) -> (r: bool)
        ensures
            r == (self is O),
    {
        match self {
            Maybe::O(_) => true,
            Maybe::X(_) => false,
        }
    }

    /// Whether this outcome is a success whose value satisfies `f`.
    pub fn is_ok_and<F: FnOnce(T) -> bool>(self, f: F) -> (r: bool)
        requires
            self is O ==> call_requires(f, (self->O_0,)),
        ensures
            self is X ==> r == false,
            self is O ==> call_ensures(f, (self->O_0,), r),
    {
        match self {
            Maybe::X(_) => false,
            Maybe::O(x) => f(x),
        }
    }

    /// Whether this outcome is a failure.
    pub fn is_err(&self) -> (r: bool)
        ensures
            r == (self is X),
    {
        !self.is_ok()
    }

    /// Whether this outcome is a failure whose error satisfies `f`.
    pub fn is_err_and<F: FnOnce(E) -> bool>(self, f: F) -> (r: bool)
        requires
            self is X ==> call_requires(f, (self->X_0,)),
        ensures
            self is O ==> r == false,
            self is X ==> call_ensures(f, (self->X_0,), r),
    {
        match self {
            Maybe::O(_) => false,
            Maybe::X(e) => f(e),
        }
    }

    /// The success value, if any; the failure is discarded.
    pub fn ok(self) -> (r: Option<T>)
        ensures
            self is O ==> r == Some(self->O_0),
            self is X ==> r is None,
    {
        match self {
            Maybe::O(x) => Some(x),
            Maybe::X(_) => None,
        }
    }

    /// The failure value, if any; the success is discarded.
    pub fn err(self) -> (r: Option<E>)
        ensures
            self is X ==> r == Some(self->X_0),
            self is O ==> r is None,
    {
        match self {
            Maybe::O(_) => None,
            Maybe::X(x) => Some(x),
        }
    }

    /// A borrowed view of this outcome.
    pub fn as_ref(&self) -> (r: Maybe<&T, &E>)
        ensures
            self is O <==> r is O,
            self is O ==> r->O_0 == self->O_0,
            self is X ==> r->X_0 == self->X_0,
    {
        match self {
            Maybe::O(x) => Maybe::O(x),
            Maybe::X(x) => Maybe::X(x),
        }
    }

    /// A mutably borrowed view of this outcome: writing through the
    /// returned borrow writes the corresponding state of `self`.
    pub fn as_mut(&mut self) -> (r: Maybe<&mut T, &mut E>)
        ensures
            *old(self) is O <==> r is O,
            r matches Maybe::O(t) ==> *t == (*old(self))->O_0 && *final(self) == Maybe::<T, E>::O(
                *final(t),
            ),
            r matches Maybe::X(e) ==> *e == (*old(self))->X_0 && *final(self) == Maybe::<T, E>::X(
                *final(e),
            ),
    {
        match self {
            Maybe::O(x) => Maybe::O(x),
            Maybe::X(x) => Maybe::X(x),
        }
    }

    /// A borrowed view whose success borrow is pushed through `T`'s
    /// dereference.
    pub fn as_deref(&self) -> (r: Maybe<&T::Target, &E>) where T: core::ops::Deref
        ensures
            self is O <==> r is O,
            r matches Maybe::O(t) ==> call_ensures(<T as core::ops::Deref>::deref, (&self->O_0,), t),
            self is X ==> r->X_0 == self->X_0,
    {
        match self {
            Maybe::O(x) => Maybe::O(x.deref()),
            Maybe::X(x) => Maybe::X(x),
        }
    }

    /// A mutably borrowed view whose success borrow is pushed through `T`'s
    /// mutable dereference. How writes through the success borrow reach
    /// `self` depends on `T`'s dereference, of which nothing is known here;
    /// the failure borrow writes the failure state of `self` directly.
    pub fn as_deref_mut(&mut self) -> (r: Maybe<&mut T::Target, &mut E>) where T: core::ops::DerefMut
        ensures
            *old(self) is O <==> r is O,
            *old(self) is O ==> *final(self) is O,
            r matches Maybe::X(e) ==> *e == (*old(self))->X_0 && *final(self) == Maybe::<T, E>::X(
                *final(e),
            ),
    {
        match self {
            Maybe::O(x) => Maybe::O(x.deref_mut()),
            Maybe::X(x) => Maybe::X(x),
        }
    }

    /// Apply `op` to the success value; a failure passes through unchanged.
    pub fn map<U, F: FnOnce(T) -> U>(self, op: F) -> (r: Maybe<U, E>)
        requires
            self is O ==> call_requires(op, (self->O_0,)),
        ensures
            self is O ==> r is O && call_ensures(op, (self->O_0,), r->O_0),
            self is X ==> r == Maybe::<U, E>::X(self->X_0),
    {
        match self {
            Maybe::O(t) => Maybe::O(op(t)),
            Maybe::X(e) => Maybe::X(e),
        }
    }

    /// Apply `f` to the success value, or return `default` on failure.
    pub fn map_or<U, F: FnOnce(T) -> U>(self, default: U, f: F) -> (r: U)
        requires
            self is O ==> call_requires(f, (self->O_0,)),
        ensures
            self is O ==> call_ensures(f, (self->O_0,), r),
            self is X ==> r == default,
    {
        match self {
            Maybe::O(t) => f(t),
            Maybe::X(_) => default,
        }
    }

    /// Apply `f` to the success value, or `default` to the failure value.
    pub fn map_or_else<U, D: FnOnce(E) -> U, F: FnOnce(T) -> U>(self, default: D, f: F) -> (r: U)
        requires
            self is O ==> call_requires(f, (self->O_0,)),
            self is X ==> call_requires(default, (self->X_0,)),
        ensures
            self is O ==> call_ensures(f, (self->O_0,), r),
            self is X ==> call_ensures(default, (self->X_0,), r),
    {
        match self {
            Maybe::O(t) => f(t),
            Maybe::X(e) => default(e),
        }
    }

    /// Apply `f` to the success value, or return the default value of `U`
    /// on failure.
    pub fn map_or_default<U: Default, F: FnOnce(T) -> U>(self, f: F) -> (r: U)
        requires
            self is O ==> call_requires(f, (self->O_0,)),
        ensures
            self is O ==> call_ensures(f, (self->O_0,), r),
            self is X ==> call_ensures(U::default, (), r),
    {
        match self {
            Maybe::O(t) => f(t),
            Maybe::X(_) => U::default(),
        }
    }

    /// Apply `op` to the failure value; a success passes through unchanged.
    pub fn map_err<F, G: FnOnce(E) -> F>(self, op: G) -> (r: Maybe<T, F>)
        requires
            self is X ==> call_requires(op, (self->X_0,)),
        ensures
            self is X ==> r is X && call_ensures(op, (self->X_0,), r->X_0),
            self is O ==> r == Maybe::<T, F>::O(self->O_0),
    {
        match self {
            Maybe::O(t) => Maybe::O(t),
            Maybe::X(e) => Maybe::X(op(e)),
        }
    }

    /// Call `f` on a borrow of the success value and return the outcome
    /// unchanged.
    pub fn inspect<F: FnOnce(&T)>(self, f: F) -> (r: Self)
        requires
            self is O ==> call_requires(f, (&self->O_0,)),
        ensures
            r == self,
    {
        match &self {
            Maybe::O(t) => f(t),
            Maybe::X(_) => (),
        }
        self
    }

    /// Call `f` on a borrow of the failure value and return the outcome
    /// unchanged.
    pub fn inspect_err<F: FnOnce(&E)>(self, f: F) -> (r: Self)
        requires
            self is X ==> call_requires(f, (&self->X_0,)),
        ensures
            r == self,
    {
        match &self {
            Maybe::O(_) => (),
            Maybe::X(e) => f(e),
        }
        self
    }

    /// The success value. A failure is excluded by precondition, so `msg`
    /// — the caption a violated expectation would be reported under — goes
    /// unused here.
    pub fn expect(self, msg: &str) -> (r: T)
        requires
            self is O,
        ensures
            r == self->O_0,
    {
        match self {
            Maybe::O(t) => t,
            Maybe::X(_) => vstd::pervasive::unreached(),
        }
    }

    /// The success value. A failure is excluded by precondition.
    pub fn unwrap(self) -> (r: T)
        requires
            self is O,
        ensures
            r == self->O_0,
    {
        match self {
            Maybe::O(t) => t,
            Maybe::X(_) => vstd::pervasive::unreached(),
        }
    }

    /// The success value, or the default value of `T` on failure.
    pub fn unwrap_or_default(self) -> (r: T) where T: Default
        ensures
            self is O ==> r == self->O_0,
            self is X ==> call_ensures(T::default, (), r),
    {
        match self {
            Maybe::O(x) => x,
            Maybe::X(_) => T::default(),
        }
    }

    /// The failure value. A success is excluded by precondition, so `msg`
    /// — the caption a violated expectation would be reported under — goes
    /// unused here.
    pub fn expect_err(self, msg: &str) -> (r: E)
        requires
            self is X,
        ensures
            r == self->X_0,
    {
        match self {
            Maybe::O(_) => vstd::pervasive::unreached(),
            Maybe::X(e) => e,
        }
    }

    /// The failure value. A success is excluded by precondition.
    pub fn unwrap_err(self) -> (r: E)
        requires
            self is X,
        ensures
            r == self->X_0,
    {
        match self {
            Maybe::O(_) => vstd::pervasive::unreached(),
            Maybe::X(e) => e,
        }
    }

    /// The success value of an outcome whose failure state is uninhabited,
    /// stated here as a precondition.
    pub fn into_ok(self) -> (r: T)
        requires
            self is O,
        ensures
            r == self->O_0,
    {
        match self {
            Maybe::O(x) => x,
            Maybe::X(_) => vstd::pervasive::unreached(),
        }
    }

    /// The failure value of an outcome whose success state is uninhabited,
    /// stated here as a precondition.
    pub fn into_err(self) -> (r: E)
        requires
            self is X,
        ensures
            r == self->X_0,
    {
        match self {
            Maybe::O(_) => vstd::pervasive::unreached(),
            Maybe::X(e) => e,
        }
    }

    /// `res` if this outcome is a success, else the failure unchanged.
    pub fn and<U>(self, res: Maybe<U, E>) -> (r: Maybe<U, E>)
        ensures
            self is O ==> r == res,
            self is X ==> r == Maybe::<U, E>::X(self->X_0),
    {
        match self {
            Maybe::O(_) => res,
            Maybe::X(e) => Maybe::X(e),
        }
    }

    /// Chain into another outcome-producing step on success; a failure
    /// short-circuits past `op`.
    pub fn and_then<U, F: FnOnce(T) -> Maybe<U, E>>(self, op: F) -> (r: Maybe<U, E>)
        requires
            self is O ==> call_requires(op, (self->O_0,)),
        ensures
            self is O ==> call_ensures(op, (self->O_0,), r),
            self is X ==> r == Maybe::<U, E>::X(self->X_0),
    {
        match self {
            Maybe::O(t) => op(t),
            Maybe::X(e) => Maybe::X(e),
        }
    }

    /// The success unchanged, else `res`.
    pub fn or<F>(self, res: Maybe<T, F>) -> (r: Maybe<T, F>)
        ensures
            self is O ==> r == Maybe::<T, F>::O(self->O_0),
            self is X ==> r == res,
    {
        match self {
            Maybe::O(v) => Maybe::O(v),
            Maybe::X(_) => res,
        }
    }

    /// The success unchanged, else the outcome `op` builds from the failure.
    pub fn or_else<F, G: FnOnce(E) -> Maybe<T, F>>(self, op: G) -> (r: Maybe<T, F>)
        requires
            self is X ==> call_requires(op, (self->X_0,)),
        ensures
            self is O ==> r == Maybe::<T, F>::O(self->O_0),
            self is X ==> call_ensures(op, (self->X_0,), r),
    {
        match self {
            Maybe::O(t) => Maybe::O(t),
            Maybe::X(e) => op(e),
        }
    }

    /// The success value, or `default` on failure.
    pub fn unwrap_or(self, default: T) -> (r: T)
        ensures
            self is O ==> r == self->O_0,
            self is X ==> r == default,
    {
        match self {
            Maybe::O(t) => t,
            Maybe::X(_) => default,
        }
    }

    /// The success value, or the value `op` builds from the failure.
    pub fn unwrap_or_else<F: FnOnce(E) -> T>(self, op: F) -> (r: T)
        requires
            self is X ==> call_requires(op, (self->X_0,)),
        ensures
            self is O ==> r == self->O_0,
            self is X ==> call_ensures(op, (self->X_0,), r),
    {
        match self {
            Maybe::O(t) => t,
            Maybe::X(e) => op(e),
        }
    }

    /// This outcome as a native two-variant result.
    pub fn into_result(self) -> (r: Result<T, E>)
        ensures
            self is O ==> r == Result::<T, E>::Ok(self->O_0),
            self is X ==> r == Result::<T, E>::Err(self->X_0),
    {
        match self {
            Maybe::O(t) => Ok(t),
            Maybe::X(e) => Err(e),
        }
    }

    /// An outcome from a native two-variant result.
    pub fn from_result(result: Result<T, E>) -> (m: Maybe<T, E>)
        ensures
            result is Ok ==> m == Maybe::<T, E>::O(result->Ok_0),
            result is Err ==> m == Maybe::<T, E>::X(result->Err_0),
    {
        match result {
            Ok(x) => Maybe::O(x),
            Err(x) => Maybe::X(x),
        }
    }
}

impl<T, E> From<Result<T, E>> for Maybe<T, E> {
    fn from(result: Result<T, E>) -> (m: Maybe<T, E>) {
        match result {
            Ok(x) => Maybe::O(x),
            Err(x) => Maybe::X(x),
        }
    }
}

impl<T, E> vstd::std_specs::convert::FromSpecImpl<Result<T, E>> for Maybe<T, E> {
    open spec fn obeys_from_spec() -> bool {
        true
    }

    open spec fn from_spec(r: Result<T, E>) -> Self {
        outcome_of(r)
    }
}

/// The model of an outcome whose failure state is a traced error: the
/// success value, or the model of the traced failure.
pub enum Outcome<T> {
    Success(T),
    Failure(TracedModel),
}

/// One pass-through propagation boundary at `at`, on the model: a success
/// is untouched; a traced failure gains one location at the end of its
/// trail and keeps its original text.
pub open spec fn step_model<T>(m: Outcome<T>, at: Location) -> Outcome<T> {
    match m {
        Outcome::Success(v) => Outcome::Success(v),
        Outcome::Failure(t) => Outcome::Failure(append_model(t, at)),
    }
}

/// A chain of pass-through propagation boundaries, earliest first.
pub open spec fn chain_model<T>(m: Outcome<T>, ats: Seq<Location>) -> Outcome<T>
    decreases ats.len(),
{
    if ats.len() == 0 {
        m
    } else {
        chain_model(step_model(m, ats[0]), ats.drop_first())
    }
}

/// A success value propagated through any chain of pass-through boundaries
/// comes out unchanged: no boundary touches it and none allocates a traced
/// error for it.
pub proof fn lemma_success_unchanged<T>(m: Outcome<T>, ats: Seq<Location>)
    requires
        m is Success,
    ensures
        chain_model(m, ats) == m,
    decreases ats.len(),
{
    if ats.len() > 0 {
        lemma_success_unchanged(step_model(m, ats[0]), ats.drop_first());
    }
}

/// A traced failure propagated through any chain of boundaries keeps its
/// original text unchanged — wrapping depth never grows past one — and its
/// trail is exactly the old trail followed by the boundaries in call order.
pub proof fn lemma_original_stable<T>(t: TracedModel, ats: Seq<Location>)
    ensures
        chain_model(Outcome::<T>::Failure(t), ats) == Outcome::<T>::Failure(
            TracedModel { locs: t.locs + ats, msg: t.msg },
        ),
    decreases ats.len(),
{
    if ats.len() == 0 {
        assert(t.locs + ats =~= t.locs);
    } else {
        lemma_original_stable::<T>(append_model(t, ats[0]), ats.drop_first());
        assert(t.locs.push(ats[0]) + ats.drop_first() =~= t.locs + ats);
    }
}

/// Converting a two-variant result into the outcome type and back, or an
/// outcome into a result and back, preserves both the success and the
/// failure value.
pub proof fn lemma_result_round_trip<T, E>(r: Result<T, E>, m: Maybe<T, E>)
    ensures
        result_of(outcome_of(r)) == r,
        outcome_of(result_of(m)) == m,
{
}

/// The outcome a native two-variant result converts to.
pub open spec fn outcome_of<T, E>(r: Result<T, E>) -> Maybe<T, E> {
    match r {
        Ok(t) => Maybe::O(t),
        Err(e) => Maybe::X(e),
    }
}

/// The native two-variant result an outcome converts to.
pub open spec fn result_of<T, E>(m: Maybe<T, E>) -> Result<T, E> {
    match m {
        Maybe::O(t) => Ok(t),
        Maybe::X(e) => Err(e),
    }
}

impl<T, E: IF> Maybe<T, E> {
    /// One propagation boundary for an outcome whose failure is a fresh,
    /// never-traced error: a success yields its value to the enclosing
    /// computation unchanged; a failure is wrapped exactly once, with `at`
    /// as the sole recorded location.
    pub fn trace(self, at: Location) -> (r: Maybe<T, Traced>)
        ensures
            self is O ==> r == Maybe::<T, Traced>::O(self->O_0),
            self is X ==> r is X && r->X_0.model() == fresh_model(self->X_0.spec_message(), at),
            self is X ==> r->X_0.wf(),
    {
        match self {
            Maybe::O(v) => Maybe::O(v),
            Maybe::X(e) => Maybe::X(convert(Convertible::Fresh(e), at)),
        }
    }
}

impl<T> Maybe<T, Traced> {
    /// The model of this outcome.
    pub open spec fn outcome(self) -> Outcome<T> {
        match self {
            Maybe::O(v) => Outcome::Success(v),
            Maybe::X(t) => Outcome::Failure(t.model()),
        }
    }

    /// One propagation boundary for an outcome whose failure is already a
    /// traced error: a success yields its value unchanged; the failure only
    /// gains `at` at the end of its trail, its original untouched.
    pub fn retrace(self, at: Location) -> (r: Maybe<T, Traced>)
        ensures
            r.outcome() == step_model(self.outcome(), at),
            self is X ==> r is X && r->X_0.wf(),
    {
        match self {
            Maybe::O(v) => Maybe::O(v),
            Maybe::X(t) => Maybe::X(t.append_location(at)),
        }
    }

    /// An outcome from a native optional: an absent optional becomes a
    /// failure freshly wrapped around the fixed missing-value marker, with
    /// `at` as the sole recorded location.
    pub fn from_option(o: Option<T>, at: Location) -> (m: Maybe<T, Traced>)
        ensures
            o is Some ==> m == Maybe::<T, Traced>::O(o->0),
            o is None ==> m is X && m->X_0.model() == fresh_model("None"@, at) && m->X_0.wf(),
    {
        match o {
            Some(v) => Maybe::O(v),
            None => Maybe::X(convert(Convertible::Fresh(OptNone), at)),
        }
    }
}

impl<'a, T, E> Maybe<&'a T, E> {
    /// An owned success value copied out of the borrow; a failure passes
    /// through unchanged.
    pub fn copied(self) -> (r: Maybe<T, E>) where T: Copy
        ensures
            self is O ==> r == Maybe::<T, E>::O(*self->O_0),
            self is X ==> r == Maybe::<T, E>::X(self->X_0),
    {
        match self {
            Maybe::O(v) => Maybe::O(*v),
            Maybe::X(e) => Maybe::X(e),
        }
    }

    /// An owned success value cloned out of the borrow; a failure passes
    /// through unchanged.
    pub fn cloned(self) -> (r: Maybe<T, E>) where T: Clone
        ensures
            self is O ==> r is O && vstd::pervasive::cloned::<T>(*self->O_0, r->O_0),
            self is X ==> r == Maybe::<T, E>::X(self->X_0),
    {
        match self {
            Maybe::O(t) => Maybe::O(t.clone()),
            Maybe::X(e) => Maybe::X(e),
        }
    }
}

} // verus!
