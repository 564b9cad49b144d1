//! The tri-state value type and its combinator surface.

use vstd::prelude::*;
use vstd::pervasive::cloned;
use vstd::pervasive::unreached;
use vstd::std_specs::cmp::PartialEqSpec;
use vstd::std_specs::cmp::PartialEqSpecImpl;
use vstd::std_specs::convert::FromSpecImpl;

verus! {

/// A value that distinguishes "missing from the input" from "present with an
/// explicit null" from "present with a concrete value".
///
/// The three logical states are `Missing`, `Present(None)` and
/// `Present(Some(v))`; no fourth state exists.
#[derive(Debug)]
pub enum Field<T> {
    Missing,
    Present(Option<T>),
}

/// `a` and `b` are in the same of the three states, and their payloads (when
/// both carry one) are related by `rel`.
pub open spec fn fields_correspond<A, B>(a: Field<A>, b: Field<B>, rel: spec_fn(A, B) -> bool) -> bool {
    match (a, b) {
        (Field::Missing, Field::Missing) => true,
        (Field::Present(None), Field::Present(None)) => true,
        (Field::Present(Some(x)), Field::Present(Some(y))) => rel(x, y),
        _ => false,
    }
}

impl<T> Field<T> {
    /// The field is missing from the input.
    pub open spec fn spec_is_missing(&self) -> bool {
        self is Missing
    }

    /// The field is present, whether null or carrying a value.
    pub open spec fn spec_is_present(&self) -> bool {
        self is Present
    }

    /// The field is present and carries a concrete value.
    pub open spec fn spec_has_value(&self) -> bool {
        self matches Field::Present(Some(_))
    }

    /// Is the value missing?
    #[verifier::when_used_as_spec(spec_is_missing)]
    pub fn is_missing(&self) -> (r: bool)
        ensures
            r == self.spec_is_missing(),
    {
        matches!(self, Field::Missing)
    }

    /// Is the value present?
    #[verifier::when_used_as_spec(spec_is_present)]
    pub fn is_present(&self) -> (r: bool)
        ensures
            r == self.spec_is_present(),
    {
        !self.is_missing()
    }

    /// Is present and the value is not `None`?
    #[verifier::when_used_as_spec(spec_has_value)]
    pub fn has_value(&self) -> (r: bool)
        ensures
            r == self.spec_has_value(),
    {
        matches!(self, Field::Present(Some(_)))
    }

    /// The field holds a concrete value that the given value's equality
    /// relates to it.
    pub open spec fn spec_contains<U: PartialEq<T>>(self, x: U) -> bool {
        self matches Field::Present(Some(y)) && x.eq_spec(&y)
    }

    /// Does the field hold a concrete value equal to the given one? Never
    /// panics: `Missing` and `Present(None)` simply compare unequal to
    /// everything.
    pub fn contains<U: PartialEq<T>>(&self, x: &U) -> (r: bool)
        ensures
            !self.spec_has_value() ==> r == false,
            U::obeys_eq_spec() ==> r == self.spec_contains(*x),
    {
        match self {
            Field::Present(Some(y)) => x == y,
            _ => false,
        }
    }

    /// Converts from `&Field<T>` to `Field<&T>`, preserving which of the three
    /// states holds.
    pub fn as_ref(&self) -> (r: Field<&T>)
        ensures
            fields_correspond(*self, r, |v: T, rv: &T| rv == v),
    {
        match *self {
            Field::Present(Some(ref x)) => Field::Present(Some(x)),
            Field::Present(None) => Field::Present(None),
            Field::Missing => Field::Missing,
        }
    }

    /// Maps a `Field<T>` to `Field<U>` by applying a function to the concrete
    /// value, if one is held; `Missing` and `Present(None)` pass through
    /// untouched and the function is never invoked for them.
    pub fn map<U, F: FnOnce(T) -> U>(self, f: F) -> (r: Field<U>)
        requires
            self matches Field::Present(Some(t)) ==> f.requires((t,)),
        ensures
            fields_correspond(self, r, |t: T, u: U| f.ensures((t,), u)),
    {
        match self {
            Field::Present(Some(x)) => Field::Present(Some(f(x))),
            Field::Present(None) => Field::Present(None),
            Field::Missing => Field::Missing,
        }
    }

    /// Maps a `Field<T>` to `Field<U>` by applying a function to the whole
    /// inner option of a present field; `Missing` passes through untouched.
    pub fn map_present<U, F: FnOnce(Option<T>) -> Option<U>>(self, f: F) -> (r: Field<U>)
        requires
            self matches Field::Present(o) ==> f.requires((o,)),
        ensures
            self is Missing ==> r is Missing,
            self matches Field::Present(o) ==> (r matches Field::Present(ro) && f.ensures((o,), ro)),
    {
        match self {
            Field::Present(x) => Field::Present(f(x)),
            Field::Missing => Field::Missing,
        }
    }

    /// Applies a function to the concrete value, if one is held, or returns
    /// the provided default.
    pub fn map_or<U, F: FnOnce(T) -> U>(self, default: U, f: F) -> (r: U)
        requires
            self matches Field::Present(Some(t)) ==> f.requires((t,)),
        ensures
            self matches Field::Present(Some(t)) ==> f.ensures((t,), r),
            !self.spec_has_value() ==> r == default,
    {
        match self {
            Field::Present(Some(t)) => f(t),
            _ => default,
        }
    }

    /// Applies a function to the inner option of a present field, or returns
    /// the provided default.
    pub fn map_present_or<U, F: FnOnce(Option<T>) -> Option<U>>(
        self,
        default: Option<U>,
        f: F,
    ) -> (r: Option<U>)
        requires
            self matches Field::Present(o) ==> f.requires((o,)),
        ensures
            self matches Field::Present(o) ==> f.ensures((o,), r),
            self is Missing ==> r == default,
    {
        match self {
            Field::Present(t) => f(t),
            Field::Missing => default,
        }
    }

    /// Applies a function to the concrete value, if one is held, or computes a
    /// default; the default producer runs only when needed.
    pub fn map_or_else<U, D: FnOnce() -> U, F: FnOnce(T) -> U>(self, default: D, f: F) -> (r: U)
        requires
            self matches Field::Present(Some(t)) ==> f.requires((t,)),
            !self.spec_has_value() ==> default.requires(()),
        ensures
            self matches Field::Present(Some(t)) ==> f.ensures((t,), r),
            !self.spec_has_value() ==> default.ensures((), r),
    {
        match self {
            Field::Present(Some(t)) => f(t),
            _ => default(),
        }
    }

    /// Applies a function to the inner option of a present field, or computes
    /// a default; the default producer runs only when the field is missing.
    pub fn map_present_or_else<U, D: FnOnce() -> Option<U>, F: FnOnce(Option<T>) -> Option<U>>(
        self,
        default: D,
        f: F,
    ) -> (r: Option<U>)
        requires
            self matches Field::Present(o) ==> f.requires((o,)),
            self is Missing ==> default.requires(()),
        ensures
            self matches Field::Present(o) ==> f.ensures((o,), r),
            self is Missing ==> default.ensures((), r),
    {
        match self {
            Field::Present(t) => f(t),
            Field::Missing => default(),
        }
    }

    /// Returns the concrete value. Callers must know the field holds one:
    /// neither `Missing` nor `Present(None)` is allowed here.
    pub fn unwrap(self) -> (r: T)
        requires
            self.spec_has_value(),
        ensures
            self == Field::Present(Some(r)),
    {
        match self {
            Field::Present(Some(t)) => t,
            _ => unreached(),
        }
    }

    /// Returns the inner option. Callers must know the field is present.
    pub fn unwrap_present(self) -> (r: Option<T>)
        requires
            self.spec_is_present(),
        ensures
            self == Field::Present(r),
    {
        match self {
            Field::Present(val) => val,
            Field::Missing => unreached(),
        }
    }

    /// Returns a reference to the inner option. Callers must know the field is
    /// present.
    pub fn unwrap_present_ref(&self) -> (r: &Option<T>)
        requires
            self.spec_is_present(),
        ensures
            *self == Field::Present(*r),
    {
        match self {
            Field::Present(val) => val,
            Field::Missing => unreached(),
        }
    }

    /// Returns the concrete value or the provided default.
    pub fn unwrap_or(self, default: T) -> (r: T)
        ensures
            self.spec_has_value() ==> self == Field::Present(Some(r)),
            !self.spec_has_value() ==> r == default,
    {
        match self {
            Field::Present(Some(t)) => t,
            _ => default,
        }
    }

    /// Returns the inner option of a present field or the provided default.
    pub fn unwrap_present_or(self, default: Option<T>) -> (r: Option<T>)
        ensures
            self.spec_is_present() ==> self == Field::Present(r),
            self is Missing ==> r == default,
    {
        match self {
            Field::Present(val) => val,
            Field::Missing => default,
        }
    }

    /// Returns the concrete value or computes a default from the closure.
    pub fn unwrap_or_else<F: FnOnce() -> T>(self, f: F) -> (r: T)
        requires
            !self.spec_has_value() ==> f.requires(()),
        ensures
            self.spec_has_value() ==> self == Field::Present(Some(r)),
            !self.spec_has_value() ==> f.ensures((), r),
    {
        match self {
            Field::Present(Some(x)) => x,
            _ => f(),
        }
    }

    /// Returns the inner option of a present field or computes a default from
    /// the closure.
    pub fn unwrap_present_or_else<F: FnOnce() -> Option<T>>(self, f: F) -> (r: Option<T>)
        requires
            self is Missing ==> f.requires(()),
        ensures
            self.spec_is_present() ==> self == Field::Present(r),
            self is Missing ==> f.ensures((), r),
    {
        match self {
            Field::Present(x) => x,
            Field::Missing => f(),
        }
    }

    /// Returns the concrete value; the message documents the call site's
    /// reason for knowing one is held.
    pub fn expect(self, msg: &str) -> (r: T)
        requires
            self.spec_has_value(),
        ensures
            self == Field::Present(Some(r)),
    {
        let _ = msg;
        match self {
            Field::Present(Some(val)) => val,
            _ => unreached(),
        }
    }

    /// Returns the inner option; the message documents the call site's reason
    /// for knowing the field is present.
    pub fn expect_present(self, msg: &str) -> (r: Option<T>)
        requires
            self.spec_is_present(),
        ensures
            self == Field::Present(r),
    {
        let _ = msg;
        match self {
            Field::Present(val) => val,
            Field::Missing => unreached(),
        }
    }

    /// Converts to a result: the concrete value on success, the caller's error
    /// value when the field holds none.
    pub fn ok_or<E>(self, err: E) -> (r: Result<T, E>)
        ensures
            self.spec_has_value() ==> (r matches Ok(v) && self == Field::Present(Some(v))),
            !self.spec_has_value() ==> r == Err::<T, E>(err),
    {
        match self {
            Field::Present(Some(v)) => Ok(v),
            _ => Err(err),
        }
    }

    /// Converts to a result: the inner option of a present field on success,
    /// the caller's error value when the field is missing.
    pub fn ok_present_or<E>(self, err: E) -> (r: Result<Option<T>, E>)
        ensures
            self.spec_is_present() ==> (r matches Ok(v) && self == Field::Present(v)),
            self is Missing ==> r == Err::<Option<T>, E>(err),
    {
        match self {
            Field::Present(v) => Ok(v),
            Field::Missing => Err(err),
        }
    }

    /// Converts to a result, computing the error value lazily.
    pub fn ok_or_else<E, F: FnOnce() -> E>(self, err: F) -> (r: Result<T, E>)
        requires
            !self.spec_has_value() ==> err.requires(()),
        ensures
            self.spec_has_value() ==> (r matches Ok(v) && self == Field::Present(Some(v))),
            !self.spec_has_value() ==> (r matches Err(e) && err.ensures((), e)),
    {
        match self {
            Field::Present(Some(v)) => Ok(v),
            _ => Err(err()),
        }
    }

    /// Converts to a result, computing the error value lazily; only a missing
    /// field is an error.
    pub fn ok_present_or_else<E, F: FnOnce() -> E>(self, err: F) -> (r: Result<Option<T>, E>)
        requires
            self is Missing ==> err.requires(()),
        ensures
            self.spec_is_present() ==> (r matches Ok(v) && self == Field::Present(v)),
            self is Missing ==> (r matches Err(e) && err.ensures((), e)),
    {
        match self {
            Field::Present(v) => Ok(v),
            Field::Missing => Err(err()),
        }
    }

    /// Returns `fieldb` when this field holds a concrete value; otherwise
    /// passes the own state through.
    pub fn and<U>(self, fieldb: Field<U>) -> (r: Field<U>)
        ensures
            self.spec_has_value() ==> r == fieldb,
            self matches Field::Present(None) ==> r == Field::Present(None::<U>),
            self is Missing ==> r is Missing,
    {
        match self {
            Field::Present(Some(_)) => fieldb,
            Field::Present(None) => Field::Present(None),
            Field::Missing => Field::Missing,
        }
    }

    /// Returns `fieldb` when this field is present; otherwise stays missing.
    pub fn and_present<U>(self, fieldb: Field<U>) -> (r: Field<U>)
        ensures
            self.spec_is_present() ==> r == fieldb,
            self is Missing ==> r is Missing,
    {
        match self {
            Field::Present(_) => fieldb,
            Field::Missing => Field::Missing,
        }
    }

    /// Chains a computation over the concrete value; `Missing` and
    /// `Present(None)` pass through untouched.
    pub fn and_then<U, F: FnOnce(T) -> Field<U>>(self, f: F) -> (r: Field<U>)
        requires
            self matches Field::Present(Some(t)) ==> f.requires((t,)),
        ensures
            self matches Field::Present(Some(t)) ==> f.ensures((t,), r),
            self matches Field::Present(None) ==> r == Field::Present(None::<U>),
            self is Missing ==> r is Missing,
    {
        match self {
            Field::Present(Some(x)) => f(x),
            Field::Present(None) => Field::Present(None),
            Field::Missing => Field::Missing,
        }
    }

    /// Chains a computation over the inner option of a present field;
    /// `Missing` passes through untouched.
    pub fn and_then_present<U, F: FnOnce(Option<T>) -> Field<U>>(self, f: F) -> (r: Field<U>)
        requires
            self matches Field::Present(o) ==> f.requires((o,)),
        ensures
            self matches Field::Present(o) ==> f.ensures((o,), r),
            self is Missing ==> r is Missing,
    {
        match self {
            Field::Present(x) => f(x),
            Field::Missing => Field::Missing,
        }
    }

    /// Fills the field with the value when it holds no concrete one.
    pub fn get_or_insert(&mut self, value: T)
        ensures
            old(self).spec_has_value() ==> *final(self) == *old(self),
            !old(self).spec_has_value() ==> *final(self) == Field::Present(Some(value)),
    {
        if !self.has_value() {
            *self = Field::Present(Some(value));
        }
    }

    /// Fills the field with the option when it is missing.
    pub fn get_or_insert_present(&mut self, value: Option<T>)
        ensures
            old(self).spec_is_present() ==> *final(self) == *old(self),
            (*old(self)) is Missing ==> *final(self) == Field::Present(value),
    {
        if self.is_missing() {
            *self = Field::Present(value);
        }
    }

    /// Fills the field with a computed value when it holds no concrete one;
    /// the producer runs only in that case.
    pub fn get_or_insert_with<F: FnOnce() -> T>(&mut self, f: F)
        requires
            !old(self).spec_has_value() ==> f.requires(()),
        ensures
            old(self).spec_has_value() ==> *final(self) == *old(self),
            !old(self).spec_has_value() ==> (*final(self) matches Field::Present(Some(v))
                && f.ensures((), v)),
    {
        if !self.has_value() {
            *self = Field::Present(Some(f()));
        }
    }

    /// Fills the field with a computed option when it is missing; the producer
    /// runs only in that case.
    pub fn get_or_insert_with_present<F: FnOnce() -> Option<T>>(&mut self, f: F)
        requires
            (*old(self)) is Missing ==> f.requires(()),
        ensures
            old(self).spec_is_present() ==> *final(self) == *old(self),
            (*old(self)) is Missing ==> (*final(self) matches Field::Present(o) && f.ensures((), o)),
    {
        if self.is_missing() {
            *self = Field::Present(f());
        }
    }
}

impl<T: Default> Field<T> {
    /// Returns the concrete value, or the payload type's default value when
    /// none is held.
    pub fn unwrap_or_default(self) -> (r: T)
        ensures
            self.spec_has_value() ==> self == Field::Present(Some(r)),
            !self.spec_has_value() ==> call_ensures(T::default, (), r),
    {
        match self {
            Field::Present(Some(x)) => x,
            _ => T::default(),
        }
    }

    /// Returns the inner option of a present field, or `None` when missing.
    pub fn unwrap_present_or_default(self) -> (r: Option<T>)
        ensures
            self.spec_is_present() ==> self == Field::Present(r),
            self is Missing ==> r is None,
    {
        match self {
            Field::Present(x) => x,
            Field::Missing => Option::default(),
        }
    }
}

impl<T> Default for Field<T> {
    /// A field constructed without input is missing.
    fn default() -> (r: Self)
        ensures
            r is Missing,
    {
        Field::Missing
    }
}

impl<T> From<T> for Field<T> {
    /// A bare payload value converts to a present field with that value.
    fn from(val: T) -> (r: Field<T>) {
        Field::Present(Some(val))
    }
}

impl<T> FromSpecImpl<T> for Field<T> {
    open spec fn obeys_from_spec() -> bool {
        true
    }

    open spec fn from_spec(val: T) -> Field<T> {
        Field::Present(Some(val))
    }
}

impl<T> From<Option<T>> for Field<T> {
    /// A plain option converts to a present field holding it.
    fn from(opt: Option<T>) -> (r: Field<T>) {
        Field::Present(opt)
    }
}

impl<T> FromSpecImpl<Option<T>> for Field<T> {
    open spec fn obeys_from_spec() -> bool {
        true
    }

    open spec fn from_spec(opt: Option<T>) -> Field<T> {
        Field::Present(opt)
    }
}

impl<T> From<Option<Option<T>>> for Field<T> {
    /// A doubly-nested option converts by the absence/presence discriminator:
    /// an empty outer layer means the field is missing, whatever the inner
    /// state would have been; a filled one means it is present.
    fn from(opt: Option<Option<T>>) -> (r: Field<T>) {
        match opt {
            Some(inner_opt) => Field::Present(inner_opt),
            None => Field::Missing,
        }
    }
}

impl<T> FromSpecImpl<Option<Option<T>>> for Field<T> {
    open spec fn obeys_from_spec() -> bool {
        true
    }

    open spec fn from_spec(opt: Option<Option<T>>) -> Field<T> {
        match opt {
            Some(inner_opt) => Field::Present(inner_opt),
            None => Field::Missing,
        }
    }
}

impl<'a, T: Copy> Field<&'a T> {
    /// Maps a `Field<&T>` to a `Field<T>` by copying the referent.
    pub fn copied(self) -> (r: Field<T>)
        ensures
            fields_correspond(self, r, |v: &T, rv: T| rv == *v),
    {
        match self {
            Field::Present(Some(x)) => Field::Present(Some(*x)),
            Field::Present(None) => Field::Present(None),
            Field::Missing => Field::Missing,
        }
    }
}

impl<'a, T: Clone> Field<&'a T> {
    /// Maps a `Field<&T>` to a `Field<T>` by cloning the referent.
    pub fn cloned(self) -> (r: Field<T>)
        ensures
            fields_correspond(self, r, |v: &T, rv: T| cloned::<T>(*v, rv)),
    {
        match self {
            Field::Present(Some(x)) => Field::Present(Some(x.clone())),
            Field::Present(None) => Field::Present(None),
            Field::Missing => Field::Missing,
        }
    }
}

impl<T: core::ops::Deref> Field<T> {
    /// Converts from `&Field<T>` to a field of borrows of the payload's
    /// dereference target, preserving which of the three states holds. What
    /// the borrow points at is whatever the payload's own `deref` answers;
    /// no more is promised of it here, since `deref` itself promises nothing.
    pub fn as_deref(&self) -> (r: Field<&<T as core::ops::Deref>::Target>)
        ensures
            fields_correspond(
                *self,
                r,
                |v: T, rv: &<T as core::ops::Deref>::Target|
                    call_ensures(<T as core::ops::Deref>::deref, (&v,), rv),
            ),
    {
        self.as_ref().map(<T as core::ops::Deref>::deref)
    }
}

impl<T: Clone> Clone for Field<T> {
    /// The clone is in the same state, its payload a clone of the original's.
    fn clone(&self) -> (res: Self)
        ensures
            fields_correspond(*self, res, |v: T, rv: T| cloned::<T>(v, rv)),
    {
        match self {
            Field::Present(Some(x)) => Field::Present(Some(x.clone())),
            Field::Present(None) => Field::Present(None),
            Field::Missing => Field::Missing,
        }
    }
}

impl<T: PartialEq> PartialEqSpecImpl for Field<T> {
    open spec fn obeys_eq_spec() -> bool {
        T::obeys_eq_spec()
    }

    open spec fn eq_spec(&self, other: &Field<T>) -> bool {
        match (*self, *other) {
            (Field::Missing, Field::Missing) => true,
            (Field::Present(None), Field::Present(None)) => true,
            (Field::Present(Some(x)), Field::Present(Some(y))) => x.eq_spec(&y),
            _ => false,
        }
    }
}

impl<T: PartialEq> PartialEq for Field<T> {
    /// Equality is structural: the states must match, and two concrete values
    /// compare under the payload's equality.
    fn eq(&self, other: &Field<T>) -> (r: bool) {
        match (self, other) {
            (Field::Missing, Field::Missing) => true,
            (Field::Present(a), Field::Present(b)) => a == b,
            _ => false,
        }
    }
}

impl<T: Eq> Eq for Field<T> {

}

impl<T: Clone + PartialEq> Field<T> {
    /// Compares a baseline (`self`) against a candidate (`other`) and reports
    /// only a genuinely new concrete value: the candidate comes back when the
    /// two differ and the candidate holds a value; in every other case —
    /// equal fields, or a candidate that is missing or null — the delta is
    /// `Missing`.
    pub fn delta(&self, other: &Field<T>) -> (r: Field<T>)
        ensures
            !other.spec_has_value() ==> r is Missing,
            r is Missing || fields_correspond(*other, r, |v: T, rv: T| cloned::<T>(v, rv)),
            T::obeys_eq_spec() ==> (if !PartialEqSpec::eq_spec(self, other) && other.spec_has_value() {
                fields_correspond(*other, r, |v: T, rv: T| cloned::<T>(v, rv))
            } else {
                r is Missing
            }),
    {
        if !(self == other) && other.has_value() {
            other.clone()
        } else {
            Field::Missing
        }
    }
}

/// For every payload value `x`, the field `Present(Some(x))` is present, is
/// not missing, and has a value; and it contains a value `y` exactly when the
/// payload's own equality relates `y` to `x` — in particular it contains `x`
/// itself whenever that equality is reflexive.
pub proof fn lemma_present_value_state<T: PartialEq>(x: T)
    ensures
        Field::Present(Some(x)).spec_is_present(),
        !Field::Present(Some(x)).spec_is_missing(),
        Field::Present(Some(x)).spec_has_value(),
        Field::Present(Some(x)).spec_contains(x) == x.eq_spec(&x),
{
}

/// `Missing` is missing and contains nothing, whatever the value asked about;
/// `Present(None)` has no value and contains nothing either.
pub proof fn lemma_missing_and_null_state<T: PartialEq>(x: T)
    ensures
        Field::<T>::Missing.spec_is_missing(),
        !Field::<T>::Present(None).spec_has_value(),
        !Field::<T>::Missing.spec_contains(x),
        !Field::<T>::Present(None).spec_contains(x),
{
}

} // verus!
