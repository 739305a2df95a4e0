//! Time, stored in milliseconds.
use vstd::prelude::*;
use core::cmp::Ordering;
use vstd::std_specs::ops::AddSpec;
use vstd::std_specs::ops::SubSpec;
use crate::scalar::fits;
use crate::scalar::Scalar;
use crate::scalar::trunc_div;

verus! {

/// A span of time. Two spans are equal when they last equally many
/// milliseconds, whatever unit each was built from.
#[derive(Copy, Clone, Debug)]
pub struct Time<T: Scalar>(pub(crate) T);

impl<T: Scalar> Time<T> {
    /// The length of the span in milliseconds.
    pub closed spec fn value(self) -> int {
        self.0.value()
    }

    /// The span that lasts `ms` milliseconds.
    pub closed spec fn of_value(ms: int) -> Self {
        Time(T::of_int(ms))
    }

    /// The span of `value` hours.
    pub open spec fn spec_hours(value: T) -> Self {
        Self::of_value(value.value() * 3_600_000)
    }

    /// The span of `value` minutes.
    pub open spec fn spec_minutes(value: T) -> Self {
        Self::of_value(value.value() * 60_000)
    }

    /// The span of `value` seconds.
    pub open spec fn spec_seconds(value: T) -> Self {
        Self::of_value(value.value() * 1000)
    }

    /// The span of `value` milliseconds.
    pub open spec fn spec_milliseconds(value: T) -> Self {
        Self::of_value(value.value())
    }

    /// The whole seconds in the span, toward zero.
    pub open spec fn spec_as_seconds(self) -> T {
        T::of_int(trunc_div(self.value(), 1000))
    }

    /// The milliseconds in the span.
    pub open spec fn spec_as_milliseconds(self) -> T {
        T::of_int(self.value())
    }

    /// A span lasts a number of milliseconds that `T` can represent, and so
    /// are zero and the whole seconds of the span.
    pub proof fn lemma_value_in_range(self)
        ensures
            fits::<T>(self.value()),
            fits::<T>(0),
            fits::<T>(trunc_div(self.value(), 1000)),
    {
        self.0.lemma_value_in_range();
        T::lemma_range_covers_i32();
    }

    /// The span built from a representable number of milliseconds lasts that
    /// long.
    pub proof fn lemma_of_value(ms: int)
        requires
            fits::<T>(ms),
        ensures
            Self::of_value(ms).value() == ms,
    {
        T::lemma_of_int_value(ms);
    }

    /// A span is the one built from its own length, so spans of equal length
    /// are equal.
    pub proof fn lemma_value_determines(self)
        ensures
            Self::of_value(self.value()) == self,
    {
        self.0.lemma_value_of_int();
    }

    /// Milliseconds in a second.
    pub(crate) fn raw_to_second() -> (r: T)
        ensures
            r.value() == 1000,
    {
        T::from_i32(1000)
    }

    /// The span of `value` hours.
    pub fn hours(value: T) -> (r: Self)
        requires
            fits::<T>(value.value() * 3_600_000),
        ensures
            r == Self::spec_hours(value),
            r.value() == value.value() * 3_600_000,
    {
        let r = Time(value.product(T::from_i32(60 * 60 * 1000)));
        proof {
            r.lemma_value_determines();
        }
        r
    }

    /// The span of `value` minutes.
    pub fn minutes(value: T) -> (r: Self)
        requires
            fits::<T>(value.value() * 60_000),
        ensures
            r == Self::spec_minutes(value),
            r.value() == value.value() * 60_000,
    {
        let r = Time(value.product(T::from_i32(60 * 1000)));
        proof {
            r.lemma_value_determines();
        }
        r
    }

    /// The span of `value` seconds.
    pub fn seconds(value: T) -> (r: Self)
        requires
            fits::<T>(value.value() * 1000),
        ensures
            r == Self::spec_seconds(value),
            r.value() == value.value() * 1000,
    {
        let r = Time(value.product(T::from_i32(1000)));
        proof {
            r.lemma_value_determines();
        }
        r
    }

    /// The span of `value` milliseconds.
    pub fn milliseconds(value: T) -> (r: Self)
        ensures
            r == Self::spec_milliseconds(value),
            r.value() == value.value(),
    {
        let r = Time(value);
        proof {
            r.lemma_value_determines();
        }
        r
    }

    /// The whole seconds in the span: the millisecond count divided by 1000
    /// and rounded toward zero.
    pub fn as_seconds(&self) -> (r: T)
        ensures
            r == self.spec_as_seconds(),
            r.value() == trunc_div(self.value(), 1000),
    {
        proof {
            self.lemma_value_in_range();
        }
        let r = self.0.quotient(Self::raw_to_second());
        proof {
            r.lemma_value_of_int();
        }
        r
    }

    /// The milliseconds in the span.
    pub fn as_milliseconds(&self) -> (r: T)
        ensures
            r == self.spec_as_milliseconds(),
            r.value() == self.value(),
    {
        proof {
            self.0.lemma_value_of_int();
        }
        self.0
    }

    /// The same span in another representation. The millisecond count is
    /// carried over as it is; nothing is rescaled.
    pub fn as_<U: Scalar>(&self) -> (r: Time<U>)
        requires
            fits::<U>(self.value()),
        ensures
            r == Time::<U>::of_value(self.value()),
            r.value() == self.value(),
    {
        let r = Time(U::from_i64(self.0.to_i64()).unwrap());
        proof {
            r.lemma_value_determines();
        }
        r
    }

    /// Building a span from seconds or milliseconds and reading it in the
    /// same unit gives the number back.
    pub proof fn lemma_round_trip(value: T)
        ensures
            fits::<T>(value.value() * 1000) ==> Self::spec_seconds(value).spec_as_seconds() == value,
            Self::spec_milliseconds(value).spec_as_milliseconds() == value,
    {
        value.lemma_value_in_range();
        value.lemma_value_of_int();
        Self::lemma_of_value(value.value());
        if fits::<T>(value.value() * 1000) {
            Self::lemma_of_value(value.value() * 1000);
        }
    }

    /// Carrying a span into another representation that can hold it, and
    /// back, gives the span back.
    pub proof fn lemma_as_round_trip<U: Scalar>(self)
        requires
            fits::<U>(self.value()),
        ensures
            fits::<T>(Time::<U>::of_value(self.value()).value()),
            Self::of_value(Time::<U>::of_value(self.value()).value()) == self,
    {
        Time::<U>::lemma_of_value(self.value());
        self.lemma_value_in_range();
        self.lemma_value_determines();
    }

    /// A span is the same whichever unit it is written in: an hour is sixty
    /// minutes, a minute sixty seconds, a second a thousand milliseconds.
    pub proof fn lemma_units_agree(h: T, m: T, s: T, ms: T)
        ensures
            m.value() == h.value() * 60 ==> Self::spec_hours(h) == Self::spec_minutes(m),
            s.value() == m.value() * 60 ==> Self::spec_minutes(m) == Self::spec_seconds(s),
            ms.value() == s.value() * 1000 ==> Self::spec_seconds(s) == Self::spec_milliseconds(ms),
    {
    }

    /// Adding spans does not depend on their order.
    pub proof fn lemma_add_commutes(a: Self, b: Self)
        ensures
            a.add_spec(b) == b.add_spec(a),
    {
    }

    /// Adding three spans does not depend on how they are grouped, as long
    /// as both inner sums can be represented.
    pub proof fn lemma_add_associates(a: Self, b: Self, c: Self)
        requires
            a.add_req(b),
            b.add_req(c),
        ensures
            a.add_spec(b).add_spec(c) == a.add_spec(b.add_spec(c)),
    {
        Self::lemma_of_value(a.value() + b.value());
        Self::lemma_of_value(b.value() + c.value());
    }

    /// A span minus itself is the empty span, and that difference can always
    /// be taken.
    pub proof fn lemma_sub_self(a: Self)
        ensures
            a.sub_req(a),
            a.sub_spec(a) == Self::of_value(0),
            a.sub_spec(a).value() == 0,
    {
        a.lemma_value_in_range();
        Self::lemma_of_value(0);
    }
}

impl<T: Scalar> PartialEq for Time<T> {
    /// Whether the two spans last equally long.
    fn eq(&self, other: &Self) -> (r: bool) {
        self.0.equals(other.0)
    }
}

impl<T: Scalar> vstd::std_specs::cmp::PartialEqSpecImpl for Time<T> {
    open spec fn obeys_eq_spec() -> bool {
        true
    }

    open spec fn eq_spec(&self, other: &Self) -> bool {
        self.value() == other.value()
    }
}

impl<T: Scalar> PartialOrd for Time<T> {
    /// The order of the two spans by how long they last.
    fn partial_cmp(&self, other: &Self) -> (r: Option<Ordering>) {
        if self.0.below(other.0) {
            Some(Ordering::Less)
        } else if other.0.below(self.0) {
            Some(Ordering::Greater)
        } else {
            Some(Ordering::Equal)
        }
    }
}

impl<T: Scalar> vstd::std_specs::cmp::PartialOrdSpecImpl for Time<T> {
    open spec fn obeys_partial_cmp_spec() -> bool {
        true
    }

    open spec fn partial_cmp_spec(&self, other: &Self) -> Option<Ordering> {
        if self.value() < other.value() {
            Some(Ordering::Less)
        } else if self.value() > other.value() {
            Some(Ordering::Greater)
        } else {
            Some(Ordering::Equal)
        }
    }
}

impl<T: Scalar> core::ops::Add for Time<T> {
    type Output = Time<T>;

    /// The two spans one after the other.
    fn add(self, rhs: Self) -> (r: Self)
        ensures
            r.value() == self.value() + rhs.value(),
    {
        let r = Time(self.0.sum(rhs.0));
        proof {
            r.lemma_value_determines();
        }
        r
    }
}

impl<T: Scalar> vstd::std_specs::ops::AddSpecImpl for Time<T> {
    open spec fn obeys_add_spec() -> bool {
        true
    }

    open spec fn add_req(self, rhs: Self) -> bool {
        fits::<T>(self.value() + rhs.value())
    }

    open spec fn add_spec(self, rhs: Self) -> Self {
        Self::of_value(self.value() + rhs.value())
    }
}

impl<T: Scalar> core::ops::Sub for Time<T> {
    type Output = Time<T>;

    /// What is left of `self` once `rhs` is taken away.
    fn sub(self, rhs: Self) -> (r: Self)
        ensures
            r.value() == self.value() - rhs.value(),
    {
        let r = Time(self.0.difference(rhs.0));
        proof {
            r.lemma_value_determines();
        }
        r
    }
}

impl<T: Scalar> vstd::std_specs::ops::SubSpecImpl for Time<T> {
    open spec fn obeys_sub_spec() -> bool {
        true
    }

    open spec fn sub_req(self, rhs: Self) -> bool {
        fits::<T>(self.value() - rhs.value())
    }

    open spec fn sub_spec(self, rhs: Self) -> Self {
        Self::of_value(self.value() - rhs.value())
    }
}

} // verus!
