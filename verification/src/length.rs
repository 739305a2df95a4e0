//! Length, stored in millimeters.
use vstd::prelude::*;
use core::cmp::Ordering;
use vstd::std_specs::ops::AddSpec;
use vstd::std_specs::ops::SubSpec;
use crate::scalar::fits;
use crate::scalar::Scalar;
use crate::scalar::trunc_div;

verus! {

/// A distance. Two distances are equal when they measure equally many
/// millimeters, whatever unit each was built from.
#[derive(Copy, Clone, Debug)]
pub struct Length<T: Scalar>(pub(crate) T);

impl<T: Scalar> Length<T> {
    /// The distance in millimeters.
    pub closed spec fn value(self) -> int {
        self.0.value()
    }

    /// The distance of `mm` millimeters.
    pub closed spec fn of_value(mm: int) -> Self {
        Length(T::of_int(mm))
    }

    /// The distance of `value` kilometers.
    pub open spec fn spec_kilometers(value: T) -> Self {
        Self::of_value(value.value() * 1_000_000)
    }

    /// The distance of `value` meters.
    pub open spec fn spec_meters(value: T) -> Self {
        Self::of_value(value.value() * 1000)
    }

    /// The distance of `value` millimeters.
    pub open spec fn spec_millimeters(value: T) -> Self {
        Self::of_value(value.value())
    }

    /// The whole kilometers in the distance, toward zero.
    pub open spec fn spec_as_kilometers(self) -> T {
        T::of_int(trunc_div(self.value(), 1_000_000))
    }

    /// The whole meters in the distance, toward zero.
    pub open spec fn spec_as_meters(self) -> T {
        T::of_int(trunc_div(self.value(), 1000))
    }

    /// The millimeters in the distance.
    pub open spec fn spec_as_millimeters(self) -> T {
        T::of_int(self.value())
    }

    /// A distance is a number of millimeters that `T` can represent, and so
    /// are zero and the distance divided by a thousand or a million.
    pub proof fn lemma_value_in_range(self)
        ensures
            fits::<T>(self.value()),
            fits::<T>(0),
            fits::<T>(trunc_div(self.value(), 1000)),
            fits::<T>(trunc_div(self.value(), 1_000_000)),
    {
        self.0.lemma_value_in_range();
        T::lemma_range_covers_i32();
    }

    /// The distance built from a representable number of millimeters
    /// measures that many.
    pub proof fn lemma_of_value(mm: int)
        requires
            fits::<T>(mm),
        ensures
            Self::of_value(mm).value() == mm,
    {
        T::lemma_of_int_value(mm);
    }

    /// A distance is the one built from its own measure, so distances of
    /// equal measure are equal.
    pub proof fn lemma_value_determines(self)
        ensures
            Self::of_value(self.value()) == self,
    {
        self.0.lemma_value_of_int();
    }

    /// Millimeters in a meter.
    pub(crate) fn raw_to_meter() -> (r: T)
        ensures
            r.value() == 1000,
    {
        Self::thousand()
    }

    fn thousand() -> (r: T)
        ensures
            r.value() == 1000,
    {
        T::from_i32(1000)
    }

    /// The distance of `value` kilometers.
    pub fn kilometers(value: T) -> (r: Self)
        requires
            fits::<T>(value.value() * 1_000_000),
        ensures
            r == Self::spec_kilometers(value),
            r.value() == value.value() * 1_000_000,
    {
        proof {
            T::lemma_range_covers_i32();
        }
        let r = Length(value.product(Self::thousand()).product(Self::thousand()));
        proof {
            r.lemma_value_determines();
        }
        r
    }

    /// The distance of `value` meters.
    pub fn meters(value: T) -> (r: Self)
        requires
            fits::<T>(value.value() * 1000),
        ensures
            r == Self::spec_meters(value),
            r.value() == value.value() * 1000,
    {
        let r = Length(value.product(Self::thousand()));
        proof {
            r.lemma_value_determines();
        }
        r
    }

    /// The distance of `value` millimeters.
    pub fn millimeters(value: T) -> (r: Self)
        ensures
            r == Self::spec_millimeters(value),
            r.value() == value.value(),
    {
        let r = Length(value);
        proof {
            r.lemma_value_determines();
        }
        r
    }

    /// The whole kilometers in the distance: the millimeter count divided
    /// by a million and rounded toward zero.
    pub fn as_kilometers(&self) -> (r: T)
        ensures
            r == self.spec_as_kilometers(),
            r.value() == trunc_div(self.value(), 1_000_000),
    {
        proof {
            self.lemma_value_in_range();
        }
        let meters = self.0.quotient(Self::thousand());
        proof {
            T::lemma_range_covers_i32();
        }
        let r = meters.quotient(Self::thousand());
        proof {
            r.lemma_value_of_int();
        }
        r
    }

    /// The whole meters in the distance: the millimeter count divided by a
    /// thousand and rounded toward zero.
    pub fn as_meters(&self) -> (r: T)
        ensures
            r == self.spec_as_meters(),
            r.value() == trunc_div(self.value(), 1000),
    {
        proof {
            self.lemma_value_in_range();
        }
        let r = self.0.quotient(Self::raw_to_meter());
        proof {
            r.lemma_value_of_int();
        }
        r
    }

    /// The millimeters in the distance.
    pub fn as_millimeters(&self) -> (r: T)
        ensures
            r == self.spec_as_millimeters(),
            r.value() == self.value(),
    {
        proof {
            self.0.lemma_value_of_int();
        }
        self.0
    }

    /// The same distance in another representation. The millimeter count is
    /// carried over as it is; nothing is rescaled.
    pub fn as_<U: Scalar>(&self) -> (r: Length<U>)
        requires
            fits::<U>(self.value()),
        ensures
            r == Length::<U>::of_value(self.value()),
            r.value() == self.value(),
    {
        let r = Length(U::from_i64(self.0.to_i64()).unwrap());
        proof {
            r.lemma_value_determines();
        }
        r
    }

    /// Building a distance from a unit and reading it in the same unit gives
    /// the number back.
    pub proof fn lemma_round_trip(value: T)
        ensures
            fits::<T>(value.value() * 1_000_000) ==> Self::spec_kilometers(
                value,
            ).spec_as_kilometers() == value,
            fits::<T>(value.value() * 1000) ==> Self::spec_meters(value).spec_as_meters() == value,
            Self::spec_millimeters(value).spec_as_millimeters() == value,
    {
        value.lemma_value_in_range();
        value.lemma_value_of_int();
        Self::lemma_of_value(value.value());
        if fits::<T>(value.value() * 1000) {
            Self::lemma_of_value(value.value() * 1000);
        }
        if fits::<T>(value.value() * 1_000_000) {
            Self::lemma_of_value(value.value() * 1_000_000);
        }
    }

    /// Carrying a distance into another representation that can hold it, and
    /// back, gives the distance back.
    pub proof fn lemma_as_round_trip<U: Scalar>(self)
        requires
            fits::<U>(self.value()),
        ensures
            fits::<T>(Length::<U>::of_value(self.value()).value()),
            Self::of_value(Length::<U>::of_value(self.value()).value()) == self,
    {
        Length::<U>::lemma_of_value(self.value());
        self.lemma_value_in_range();
        self.lemma_value_determines();
    }

    /// A distance is the same whichever unit it is written in: a kilometer
    /// is a thousand meters, a meter a thousand millimeters.
    pub proof fn lemma_units_agree(km: T, m: T, mm: T)
        ensures
            m.value() == km.value() * 1000 ==> Self::spec_kilometers(km) == Self::spec_meters(m),
            mm.value() == m.value() * 1000 ==> Self::spec_meters(m) == Self::spec_millimeters(mm),
            mm.value() == km.value() * 1_000_000 ==> Self::spec_kilometers(km)
                == Self::spec_millimeters(mm),
    {
    }

    /// Adding distances does not depend on their order.
    pub proof fn lemma_add_commutes(a: Self, b: Self)
        ensures
            a.add_req(b) == b.add_req(a),
            a.add_spec(b) == b.add_spec(a),
    {
    }

    /// Adding three distances does not depend on how they are grouped, as
    /// long as both inner sums can be represented.
    pub proof fn lemma_add_associates(a: Self, b: Self, c: Self)
        requires
            a.add_req(b),
            b.add_req(c),
        ensures
            a.add_spec(b).add_req(c) == a.add_req(b.add_spec(c)),
            a.add_spec(b).add_spec(c) == a.add_spec(b.add_spec(c)),
    {
        Self::lemma_of_value(a.value() + b.value());
        Self::lemma_of_value(b.value() + c.value());
    }

    /// A distance minus itself is no distance at all, and that difference
    /// can always be taken.
    pub proof fn lemma_sub_self(a: Self)
        ensures
            a.sub_req(a),
            a.sub_spec(a) == Self::of_value(0),
            a.sub_spec(a).value() == 0,
    {
        a.lemma_value_in_range();
        Self::lemma_of_value(0);
    }
}

impl<T: Scalar> PartialEq for Length<T> {
    /// Whether the two distances measure the same.
    fn eq(&self, other: &Self) -> (r: bool) {
        self.0.equals(other.0)
    }
}

impl<T: Scalar> vstd::std_specs::cmp::PartialEqSpecImpl for Length<T> {
    open spec fn obeys_eq_spec() -> bool {
        true
    }

    open spec fn eq_spec(&self, other: &Self) -> bool {
        self.value() == other.value()
    }
}

impl<T: Scalar> PartialOrd for Length<T> {
    /// The order of the two distances by their measure.
    fn partial_cmp(&self, other: &Self) -> (r: Option<Ordering>) {
        if self.0.below(other.0) {
            Some(Ordering::Less)
        } else if other.0.below(self.0) {
            Some(Ordering::Greater)
        } else {
            Some(Ordering::Equal)
        }
    }
}

impl<T: Scalar> vstd::std_specs::cmp::PartialOrdSpecImpl for Length<T> {
    open spec fn obeys_partial_cmp_spec() -> bool {
        true
    }

    open spec fn partial_cmp_spec(&self, other: &Self) -> Option<Ordering> {
        if self.value() < other.value() {
            Some(Ordering::Less)
        } else if self.value() > other.value() {
            Some(Ordering::Greater)
        } else {
            Some(Ordering::Equal)
        }
    }
}

impl<T: Scalar> core::ops::Add for Length<T> {
    type Output = Length<T>;

    /// The two distances end to end.
    fn add(self, rhs: Self) -> (r: Self)
        ensures
            r.value() == self.value() + rhs.value(),
    {
        let r = Length(self.0.sum(rhs.0));
        proof {
            r.lemma_value_determines();
        }
        r
    }
}

impl<T: Scalar> vstd::std_specs::ops::AddSpecImpl for Length<T> {
    open spec fn obeys_add_spec() -> bool {
        true
    }

    open spec fn add_req(self, rhs: Self) -> bool {
        fits::<T>(self.value() + rhs.value())
    }

    open spec fn add_spec(self, rhs: Self) -> Self {
        Self::of_value(self.value() + rhs.value())
    }
}

impl<T: Scalar> core::ops::Sub for Length<T> {
    type Output = Length<T>;

    /// What is left of `self` once `rhs` is taken away.
    fn sub(self, rhs: Self) -> (r: Self)
        ensures
            r.value() == self.value() - rhs.value(),
    {
        let r = Length(self.0.difference(rhs.0));
        proof {
            r.lemma_value_determines();
        }
        r
    }
}

impl<T: Scalar> vstd::std_specs::ops::SubSpecImpl for Length<T> {
    open spec fn obeys_sub_spec() -> bool {
        true
    }

    open spec fn sub_req(self, rhs: Self) -> bool {
        fits::<T>(self.value() - rhs.value())
    }

    open spec fn sub_spec(self, rhs: Self) -> Self {
        Self::of_value(self.value() - rhs.value())
    }
}

} // verus!
