//! Physical units as they are written: a unit is a prefix scale and a suffix
//! scale raised to a power, and a compound unit is a product of units. Each
//! scale carries a multiplier of type `M` that converts values into it; the
//! labels and powers are the library's, the multipliers are only carried.

use vstd::prelude::*;

pub mod prefix;

verus! {

/// Changes the scale of a value to fit the prefix given.
pub trait Rescale<T> {
    fn rescale(&mut self, prefix: &T) -> &mut Self;
}

/// Decimal writing of an integer: its digits, after a minus sign when it is
/// negative.
pub open spec fn decimal_text(n: int) -> Seq<char>
    decreases (if n < 0 { -n + 1 } else { n }),
{
    if n < 0 {
        seq!['-'] + decimal_text(-n)
    } else if n < 10 {
        seq![(n + ('0' as int)) as char]
    } else {
        decimal_text(n / 10).push(((n % 10) + ('0' as int)) as char)
    }
}

/// Text of one decimal digit.
pub open spec fn digit_text(d: int) -> Seq<char> {
    seq![(d + ('0' as int)) as char]
}

/// The text of the digit `d`.
fn digit(d: u8) -> (s: &'static str)
    requires
        d < 10,
    ensures
        s@ == digit_text(d as int),
{
    proof {
        reveal_strlit("0");
        reveal_strlit("1");
        reveal_strlit("2");
        reveal_strlit("3");
        reveal_strlit("4");
        reveal_strlit("5");
        reveal_strlit("6");
        reveal_strlit("7");
        reveal_strlit("8");
        reveal_strlit("9");
    }
    match d {
        0 => "0",
        1 => "1",
        2 => "2",
        3 => "3",
        4 => "4",
        5 => "5",
        6 => "6",
        7 => "7",
        8 => "8",
        _ => "9",
    }
}

/// Decimal writing of a power.
fn decimal(n: i8) -> (s: String)
    ensures
        s@ == decimal_text(n as int),
{
    let mut s = String::new();
    let magnitude: u8 = if n < 0 {
        proof {
            reveal_strlit("-");
        }
        s.append("-");
        if n == i8::MIN {
            128
        } else {
            (-n) as u8
        }
    } else {
        n as u8
    };
    let ghost m = magnitude as int;
    assert(n < 0 ==> decimal_text(n as int) == seq!['-'] + decimal_text(m));
    assert(n >= 0 ==> m == n);
    if magnitude >= 100 {
        s.append(digit(magnitude / 100));
        s.append(digit((magnitude / 10) % 10));
        s.append(digit(magnitude % 10));
        assert(decimal_text(m / 10) == decimal_text(m / 100).push(((m / 10) % 10 + ('0' as int)) as char));
    } else if magnitude >= 10 {
        s.append(digit(magnitude / 10));
        s.append(digit(magnitude % 10));
        assert(decimal_text(m / 10) == digit_text(m / 10));
    } else {
        s.append(digit(magnitude));
    }
    proof {
        assert(s@ =~= decimal_text(n as int));
    }
    s
}

/// Writing of a power after a label: nothing for the first power.
pub open spec fn power_text(pow: int) -> Seq<char> {
    if pow == 1 {
        Seq::empty()
    } else {
        decimal_text(pow)
    }
}

/// A named scale: a label, the multiplier that converts into it, and the power
/// to which it is raised.
#[derive(Debug, Clone)]
pub struct Scale<M> {
    pub label: String,
    pub multiplier: M,
    pub pow: i8,
}

impl<M> Scale<M> {
    pub fn new(label: &str, multiplier: M, pow: i8) -> (s: Scale<M>)
        ensures
            s.label@ == label@,
            s.multiplier == multiplier,
            s.pow == pow,
    {
        Scale { label: label.to_owned(), multiplier, pow }
    }
}

impl<M: Copy> Scale<M> {
    /// A copy of the scale.
    pub fn copied(&self) -> (s: Scale<M>)
        ensures
            s == *self,
    {
        Scale { label: self.label.clone(), multiplier: self.multiplier, pow: self.pow }
    }
}

/// A unit: a prefix such as kilo and a suffix such as meter raised to a power.
#[derive(Debug, Clone)]
pub struct Unit<M> {
    pub prefix: Scale<M>,
    pub suffix: Scale<M>,
}

/// Label of a unit: prefix, suffix and the power when it is not one.
pub open spec fn unit_text<M>(u: Unit<M>) -> Seq<char> {
    u.prefix.label@ + u.suffix.label@ + power_text(u.suffix.pow as int)
}

impl<M> Unit<M> {
    pub fn new(prefix: Scale<M>, suffix: Scale<M>) -> (u: Unit<M>)
        ensures
            u.prefix == prefix,
            u.suffix == suffix,
    {
        Unit { prefix, suffix }
    }

    /// The label of the unit, such as `km` or `s-2`.
    pub fn label(&self) -> (s: String)
        ensures
            s@ == unit_text(*self),
    {
        let pow = if self.suffix.pow == 1 {
            String::new()
        } else {
            decimal(self.suffix.pow)
        };
        let mut s = self.prefix.label.clone();
        s.append(self.suffix.label.as_str());
        s.append(pow.as_str());
        s
    }
}

} // verus!

verus! {

/// Absolute value of a power.
pub open spec fn abs_pow(p: i8) -> int {
    if p < 0 {
        -p
    } else {
        p as int
    }
}

/// Label of a unit inside a compound: its power is written without sign,
/// the sign choosing between numerator and denominator.
pub open spec fn part_text<M>(u: Unit<M>) -> Seq<char> {
    u.prefix.label@ + u.suffix.label@ + power_text(abs_pow(u.suffix.pow))
}

/// Labels of the units of non-negative power, in order.
pub open spec fn numerator_text<M>(units: Seq<Unit<M>>) -> Seq<char>
    decreases units.len(),
{
    if units.len() == 0 {
        Seq::empty()
    } else {
        numerator_text(units.drop_last()) + (if units.last().suffix.pow < 0 {
            Seq::empty()
        } else {
            part_text(units.last())
        })
    }
}

/// Labels of the units of negative power, in order.
pub open spec fn denominator_text<M>(units: Seq<Unit<M>>) -> Seq<char>
    decreases units.len(),
{
    if units.len() == 0 {
        Seq::empty()
    } else {
        denominator_text(units.drop_last()) + (if units.last().suffix.pow < 0 {
            part_text(units.last())
        } else {
            Seq::empty()
        })
    }
}

/// Label of a compound unit: numerator, then a slash and the denominator
/// when the denominator is written with some character.
pub open spec fn compound_text<M>(units: Seq<Unit<M>>) -> Seq<char> {
    if denominator_text(units).len() == 0 {
        numerator_text(units)
    } else {
        numerator_text(units) + seq!['/'] + denominator_text(units)
    }
}

/// No power is the lowest `i8`, whose absolute value has no `i8`.
pub open spec fn powers_have_abs<M>(units: Seq<Unit<M>>) -> bool {
    forall|i: int| 0 <= i < units.len() ==> units[i].suffix.pow != i8::MIN
}

/// Index of the first unit whose suffix has the label given, if any.
pub open spec fn first_with_suffix<M>(units: Seq<Unit<M>>, label: Seq<char>) -> Option<int>
    decreases units.len(),
{
    if units.len() == 0 {
        None
    } else if units[0].suffix.label@ == label {
        Some(0)
    } else {
        match first_with_suffix(units.drop_first(), label) {
            Some(i) => Some(i + 1),
            None => None,
        }
    }
}

/// Units of a product by one more unit: a unit of the same suffix label
/// takes its power too, else the unit comes last.
pub open spec fn times<M>(units: Seq<Unit<M>>, u: Unit<M>) -> Seq<Unit<M>> {
    match first_with_suffix(units, u.suffix.label@) {
        None => units.push(u),
        Some(i) => units.update(
            i,
            Unit {
                prefix: units[i].prefix,
                suffix: Scale {
                    label: units[i].suffix.label,
                    multiplier: units[i].suffix.multiplier,
                    pow: (units[i].suffix.pow + u.suffix.pow) as i8,
                },
            },
        ),
    }
}

/// The product by `u` keeps each power within `i8`.
pub open spec fn times_fits<M>(units: Seq<Unit<M>>, u: Unit<M>) -> bool {
    match first_with_suffix(units, u.suffix.label@) {
        None => true,
        Some(i) => i8::MIN <= units[i].suffix.pow + u.suffix.pow <= i8::MAX,
    }
}

/// A unit raised to the opposite power.
pub open spec fn inverse<M>(u: Unit<M>) -> Unit<M> {
    Unit {
        prefix: u.prefix,
        suffix: Scale { label: u.suffix.label, multiplier: u.suffix.multiplier, pow: (-u.suffix.pow) as i8 },
    }
}

/// A product of units.
#[derive(Clone)]
pub struct Compound<M> {
    pub units: Vec<Unit<M>>,
}

impl<M> Compound<M> {
    pub fn new(units: Vec<Unit<M>>) -> (c: Compound<M>)
        ensures
            c.units@ == units@,
    {
        Compound { units }
    }

    /// The label of the compound unit, such as `m/s2`.
    pub fn label(&self) -> (s: String)
        requires
            powers_have_abs(self.units@),
        ensures
            s@ == compound_text(self.units@),
    {
        let mut num = String::new();
        let mut den = String::new();
        let len = self.units.len();
        let mut i: usize = 0;
        while i < len
            invariant
                len == self.units@.len(),
                i <= len,
                powers_have_abs(self.units@),
                num@ == numerator_text(self.units@.take(i as int)),
                den@ == denominator_text(self.units@.take(i as int)),
            decreases len - i,
        {
            let unit = &self.units[i];
            let p = unit.suffix.pow;
            let a = if p < 0 {
                -p
            } else {
                p
            };
            let pow = if a == 1 {
                String::new()
            } else {
                decimal(a)
            };
            let mut part = unit.prefix.label.clone();
            part.append(unit.suffix.label.as_str());
            part.append(pow.as_str());
            if p < 0 {
                den.append(part.as_str());
            } else {
                num.append(part.as_str());
            }
            proof {
                assert(self.units@.take(i + 1).drop_last() =~= self.units@.take(i as int));
            }
            i += 1;
        }
        proof {
            assert(self.units@.take(len as int) =~= self.units@);
        }
        if den.as_str().is_empty() {
            num
        } else {
            num.append("/");
            num.append(den.as_str());
            proof {
                reveal_strlit("/");
            }
            num
        }
    }
}

} // verus!

verus! {

/// The first unit of a suffix label is the one before which no unit has it.
proof fn lemma_first_with_suffix<M>(units: Seq<Unit<M>>, label: Seq<char>, i: int)
    requires
        0 <= i <= units.len(),
        forall|k: int| 0 <= k < i ==> units[k].suffix.label@ != label,
        i < units.len() ==> units[i].suffix.label@ == label,
    ensures
        first_with_suffix(units, label) == (if i < units.len() {
            Some(i)
        } else {
            None::<int>
        }),
    decreases i,
{
    if units.len() > 0 && i > 0 {
        let rest = units.drop_first();
        assert forall|k: int| 0 <= k < i - 1 implies rest[k].suffix.label@ != label by {
            assert(rest[k] == units[k + 1]);
        }
        lemma_first_with_suffix(rest, label, i - 1);
    }
}

impl<M> Compound<M> {
    /// Index of the first unit whose suffix has the label given.
    fn position_of_suffix(&self, label: &String) -> (r: Option<usize>)
        ensures
            match r {
                Some(i) => first_with_suffix(self.units@, label@) == Some(i as int),
                None => first_with_suffix(self.units@, label@) is None,
            },
            r matches Some(i) ==> i < self.units@.len(),
    {
        let len = self.units.len();
        let mut i: usize = 0;
        while i < len
            invariant
                len == self.units@.len(),
                i <= len,
                forall|k: int| 0 <= k < i ==> self.units@[k].suffix.label@ != label@,
            decreases len - i,
        {
            if self.units[i].suffix.label == *label {
                proof {
                    lemma_first_with_suffix(self.units@, label@, i as int);
                }
                return Some(i);
            }
            i += 1;
        }
        proof {
            lemma_first_with_suffix(self.units@, label@, len as int);
        }
        None
    }

    /// Multiplies by a unit: a unit of the same suffix label takes its power,
    /// otherwise the unit is appended.
    pub fn mul_assign(&mut self, rhs: Unit<M>)
        requires
            times_fits(old(self).units@, rhs),
        ensures
            final(self).units@ == times(old(self).units@, rhs),
    {
        match self.position_of_suffix(&rhs.suffix.label) {
            None => {
                self.units.push(rhs);
            },
            Some(i) => {
                let pow = self.units[i].suffix.pow + rhs.suffix.pow;
                self.units[i].suffix.pow = pow;
            },
        }
    }

    /// Divides by a unit: multiplies by the unit raised to the opposite power.
    pub fn div_assign(&mut self, rhs: Unit<M>)
        requires
            rhs.suffix.pow != i8::MIN,
            times_fits(old(self).units@, inverse(rhs)),
        ensures
            final(self).units@ == times(old(self).units@, inverse(rhs)),
    {
        let mut unit = rhs;
        unit.suffix.pow = -unit.suffix.pow;
        self.mul_assign(unit);
    }

    /// The product by a unit.
    pub fn mul(self, rhs: Unit<M>) -> (c: Compound<M>)
        requires
            times_fits(self.units@, rhs),
        ensures
            c.units@ == times(self.units@, rhs),
    {
        let mut result = self;
        result.mul_assign(rhs);
        result
    }

    /// The quotient by a unit.
    pub fn div(self, rhs: Unit<M>) -> (c: Compound<M>)
        requires
            rhs.suffix.pow != i8::MIN,
            times_fits(self.units@, inverse(rhs)),
        ensures
            c.units@ == times(self.units@, inverse(rhs)),
    {
        let mut result = self;
        result.div_assign(rhs);
        result
    }
}

} // verus!

verus! {

/// Units of a product by each unit of `rhs` in turn.
pub open spec fn times_all<M>(units: Seq<Unit<M>>, rhs: Seq<Unit<M>>) -> Seq<Unit<M>>
    decreases rhs.len(),
{
    if rhs.len() == 0 {
        units
    } else {
        times(times_all(units, rhs.drop_last()), rhs.last())
    }
}

/// Each product of `times_all` keeps the powers within `i8`.
pub open spec fn times_all_fits<M>(units: Seq<Unit<M>>, rhs: Seq<Unit<M>>) -> bool
    decreases rhs.len(),
{
    rhs.len() == 0 || (times_all_fits(units, rhs.drop_last()) && times_fits(
        times_all(units, rhs.drop_last()),
        rhs.last(),
    ))
}

/// Units of a quotient by each unit of `rhs` in turn.
pub open spec fn over_all<M>(units: Seq<Unit<M>>, rhs: Seq<Unit<M>>) -> Seq<Unit<M>>
    decreases rhs.len(),
{
    if rhs.len() == 0 {
        units
    } else {
        times(over_all(units, rhs.drop_last()), inverse(rhs.last()))
    }
}

/// Each quotient of `over_all` keeps the powers within `i8`.
pub open spec fn over_all_fits<M>(units: Seq<Unit<M>>, rhs: Seq<Unit<M>>) -> bool
    decreases rhs.len(),
{
    rhs.len() == 0 || (over_all_fits(units, rhs.drop_last()) && rhs.last().suffix.pow != i8::MIN
        && times_fits(over_all(units, rhs.drop_last()), inverse(rhs.last())))
}

/// Fitting of a prefix of the factors follows from fitting of them all.
proof fn lemma_times_all_fits_prefix<M>(units: Seq<Unit<M>>, rhs: Seq<Unit<M>>, k: int)
    requires
        times_all_fits(units, rhs),
        0 <= k <= rhs.len(),
    ensures
        times_all_fits(units, rhs.take(k)),
    decreases rhs.len(),
{
    if k < rhs.len() {
        assert(rhs.take(k) =~= rhs.drop_last().take(k));
        lemma_times_all_fits_prefix(units, rhs.drop_last(), k);
    } else {
        assert(rhs.take(k) =~= rhs);
    }
}

/// Fitting of a prefix of the divisors follows from fitting of them all.
proof fn lemma_over_all_fits_prefix<M>(units: Seq<Unit<M>>, rhs: Seq<Unit<M>>, k: int)
    requires
        over_all_fits(units, rhs),
        0 <= k <= rhs.len(),
    ensures
        over_all_fits(units, rhs.take(k)),
    decreases rhs.len(),
{
    if k < rhs.len() {
        assert(rhs.take(k) =~= rhs.drop_last().take(k));
        lemma_over_all_fits_prefix(units, rhs.drop_last(), k);
    } else {
        assert(rhs.take(k) =~= rhs);
    }
}

impl<M: Copy> Unit<M> {
    /// A copy of the unit.
    pub fn copied(&self) -> (u: Unit<M>)
        ensures
            u == *self,
    {
        Unit { prefix: self.prefix.copied(), suffix: self.suffix.copied() }
    }
}

impl<M> Unit<M> {
    /// The product of two units.
    pub fn mul(self, rhs: Unit<M>) -> (c: Compound<M>)
        requires
            times_fits(seq![self], rhs),
        ensures
            c.units@ == times(seq![self], rhs),
    {
        let mut units = Vec::new();
        units.push(self);
        proof {
            assert(units@ =~= seq![self]);
        }
        Compound::new(units).mul(rhs)
    }

    /// The quotient of two units.
    pub fn div(self, rhs: Unit<M>) -> (c: Compound<M>)
        requires
            rhs.suffix.pow != i8::MIN,
            times_fits(seq![self], inverse(rhs)),
        ensures
            c.units@ == times(seq![self], inverse(rhs)),
    {
        let mut units = Vec::new();
        units.push(self);
        proof {
            assert(units@ =~= seq![self]);
        }
        Compound::new(units).div(rhs)
    }
}

impl<M: Copy> Compound<M> {
    /// The product by each unit of another compound unit, in order.
    pub fn mul_compound(self, rhs: Compound<M>) -> (c: Compound<M>)
        requires
            times_all_fits(self.units@, rhs.units@),
        ensures
            c.units@ == times_all(self.units@, rhs.units@),
    {
        let mut result = self;
        let len = rhs.units.len();
        let mut i: usize = 0;
        while i < len
            invariant
                len == rhs.units@.len(),
                i <= len,
                times_all_fits(self.units@, rhs.units@),
                result.units@ == times_all(self.units@, rhs.units@.take(i as int)),
            decreases len - i,
        {
            proof {
                lemma_times_all_fits_prefix(self.units@, rhs.units@, i + 1);
                assert(rhs.units@.take(i + 1).drop_last() =~= rhs.units@.take(i as int));
            }
            result.mul_assign(rhs.units[i].copied());
            i += 1;
        }
        proof {
            assert(rhs.units@.take(len as int) =~= rhs.units@);
        }
        result
    }

    /// The quotient by each unit of another compound unit, in order.
    pub fn div_compound(self, rhs: Compound<M>) -> (c: Compound<M>)
        requires
            over_all_fits(self.units@, rhs.units@),
        ensures
            c.units@ == over_all(self.units@, rhs.units@),
    {
        let mut result = self;
        let len = rhs.units.len();
        let mut i: usize = 0;
        while i < len
            invariant
                len == rhs.units@.len(),
                i <= len,
                over_all_fits(self.units@, rhs.units@),
                result.units@ == over_all(self.units@, rhs.units@.take(i as int)),
            decreases len - i,
        {
            proof {
                lemma_over_all_fits_prefix(self.units@, rhs.units@, i + 1);
                assert(rhs.units@.take(i + 1).drop_last() =~= rhs.units@.take(i as int));
            }
            result.div_assign(rhs.units[i].copied());
            i += 1;
        }
        proof {
            assert(rhs.units@.take(len as int) =~= rhs.units@);
        }
        result
    }
}

impl<M: Copy> Rescale<Scale<M>> for Unit<M> {
    /// Takes the prefix given.
    fn rescale(&mut self, prefix: &Scale<M>) -> (r: &mut Self)
        ensures
            r.prefix == *prefix,
            r.suffix == old(self).suffix,
            *final(self) == *final(r),
    {
        self.prefix = prefix.copied();
        self
    }
}

} // verus!

verus! {

/// The first index of a suffix label depends on the labels only.
proof fn lemma_first_with_suffix_labels<M>(a: Seq<Unit<M>>, b: Seq<Unit<M>>, label: Seq<char>)
    requires
        a.len() == b.len(),
        forall|k: int| 0 <= k < a.len() ==> a[k].suffix.label@ == b[k].suffix.label@,
    ensures
        first_with_suffix(a, label) == first_with_suffix(b, label),
    decreases a.len(),
{
    if a.len() > 0 {
        let (ra, rb) = (a.drop_first(), b.drop_first());
        assert forall|k: int| 0 <= k < ra.len() implies ra[k].suffix.label@ == rb[k].suffix.label@ by {
            assert(ra[k] == a[k + 1] && rb[k] == b[k + 1]);
        }
        lemma_first_with_suffix_labels(ra, rb, label);
    }
}

/// The first index of a suffix label, when there is one, holds a unit of
/// that label.
proof fn lemma_first_with_suffix_found<M>(units: Seq<Unit<M>>, label: Seq<char>)
    ensures
        first_with_suffix(units, label) matches Some(i) ==> 0 <= i < units.len()
            && units[i].suffix.label@ == label,
    decreases units.len(),
{
    if units.len() > 0 {
        let rest = units.drop_first();
        lemma_first_with_suffix_found(rest, label);
        if let Some(i) = first_with_suffix(rest, label) {
            assert(rest[i] == units[i + 1]);
        }
    }
}

/// Multiplying by a unit and then dividing by it gives back the units, when a
/// unit of that suffix label was already there.
pub proof fn lemma_times_then_over<M>(units: Seq<Unit<M>>, u: Unit<M>)
    requires
        first_with_suffix(units, u.suffix.label@) is Some,
        u.suffix.pow != i8::MIN,
        times_fits(units, u),
        times_fits(times(units, u), inverse(u)),
    ensures
        times(times(units, u), inverse(u)) == units,
{
    let label = u.suffix.label@;
    let i = first_with_suffix(units, label)->Some_0;
    lemma_first_with_suffix_found(units, label);
    let once = times(units, u);
    assert forall|k: int| 0 <= k < units.len() implies once[k].suffix.label@
        == units[k].suffix.label@ by {}
    lemma_first_with_suffix_labels(once, units, label);
    assert(inverse(u).suffix.label@ == label);
    assert(times(once, inverse(u)) =~= units);
}

/// A unit of non-negative power has the same label alone in a compound unit.
pub proof fn lemma_single_unit_label<M>(u: Unit<M>)
    requires
        u.suffix.pow >= 0,
    ensures
        compound_text(seq![u]) == unit_text(u),
{
    let single = seq![u];
    assert(single.drop_last() =~= Seq::<Unit<M>>::empty());
    assert(single.last() == u);
    assert(numerator_text(Seq::<Unit<M>>::empty()) == Seq::<char>::empty());
    assert(denominator_text(Seq::<Unit<M>>::empty()) == Seq::<char>::empty());
    assert(numerator_text(seq![u]) =~= part_text(u));
    assert(denominator_text(seq![u]) =~= Seq::<char>::empty());
}

} // verus!

verus! {

/// Whether every character is a decimal digit.
pub open spec fn all_digits(s: Seq<char>) -> bool {
    forall|i: int| 0 <= i < s.len() ==> '0' <= #[trigger] s[i] <= '9'
}

/// The number that a sequence of decimal digits reads.
pub open spec fn digits_value(s: Seq<char>) -> int
    decreases s.len(),
{
    if s.len() == 0 {
        0
    } else {
        digits_value(s.drop_last()) * 10 + (s.last() as int - '0' as int)
    }
}

/// The decimal writing of a natural number is a non-empty run of digits that
/// reads back as the number, with no leading zero; a negative number is
/// written as a minus sign before the writing of its magnitude.
pub proof fn lemma_decimal_text(n: int)
    ensures
        n >= 0 ==> decimal_text(n).len() >= 1,
        n >= 0 ==> all_digits(decimal_text(n)),
        n >= 0 ==> digits_value(decimal_text(n)) == n,
        n >= 0 && decimal_text(n).len() > 1 ==> decimal_text(n)[0] != '0',
        n < 0 ==> decimal_text(n) == seq!['-'] + decimal_text(-n),
    decreases (if n < 0 { -n + 1 } else { n }),
{
    if n >= 10 {
        lemma_decimal_text(n / 10);
        let s = decimal_text(n);
        let c = ((n % 10) + ('0' as int)) as char;
        assert(c as int == (n % 10) + ('0' as int));
        assert(s.drop_last() =~= decimal_text(n / 10));
        assert(s.last() == c);
        assert(digits_value(s) == (n / 10) * 10 + n % 10);
        assert forall|i: int| 0 <= i < s.len() implies '0' <= #[trigger] s[i] <= '9' by {
            if i < s.len() - 1 {
                assert(s[i] == decimal_text(n / 10)[i]);
            }
        }
        assert(s[0] == decimal_text(n / 10)[0]);
        if n / 10 < 10 {
            let d = ((n / 10) + ('0' as int)) as char;
            assert(d as int == (n / 10) + ('0' as int));
            assert(decimal_text(n / 10)[0] == d);
        } else {
            lemma_decimal_text(n / 100);
            assert(n / 10 / 10 == n / 100);
            assert(decimal_text(n / 10).len() == decimal_text(n / 100).len() + 1);
        }
    } else if n >= 0 {
        let s = decimal_text(n);
        let c = (n + ('0' as int)) as char;
        assert(c as int == n + ('0' as int));
        assert(s.drop_last() =~= Seq::<char>::empty());
        assert(s.len() == 1);
        assert(s.last() == c);
        assert(digits_value(s.drop_last()) == 0);
    }
}

/// Only the first power is left unwritten: the label of a unit of any other
/// power ends with the decimal writing of that power, sign included.
pub proof fn lemma_unit_label_power<M>(u: Unit<M>)
    ensures
        u.suffix.pow == 1 ==> unit_text(u) == u.prefix.label@ + u.suffix.label@,
        u.suffix.pow != 1 ==> unit_text(u) == u.prefix.label@ + u.suffix.label@ + decimal_text(
            u.suffix.pow as int,
        ),
        u.suffix.pow < 0 ==> unit_text(u) == u.prefix.label@ + u.suffix.label@ + seq!['-']
            + decimal_text(-u.suffix.pow),
{
    if u.suffix.pow < 0 {
        lemma_decimal_text(u.suffix.pow as int);
        assert(unit_text(u) =~= u.prefix.label@ + u.suffix.label@ + seq!['-'] + decimal_text(
            -u.suffix.pow,
        ));
    }
}

/// Texts of the numerator and the denominator of a single unit: the unit is
/// written whole, prefix included, in the numerator when its power is not
/// negative and in the denominator when it is.
pub proof fn lemma_single_unit_texts<M>(u: Unit<M>)
    ensures
        numerator_text(seq![u]) == (if u.suffix.pow >= 0 {
            u.prefix.label@ + u.suffix.label@ + power_text(u.suffix.pow as int)
        } else {
            Seq::empty()
        }),
        denominator_text(seq![u]) == (if u.suffix.pow < 0 {
            u.prefix.label@ + u.suffix.label@ + power_text(-u.suffix.pow)
        } else {
            Seq::empty()
        }),
{
    let single = seq![u];
    assert(single.drop_last() =~= Seq::<Unit<M>>::empty());
    assert(single.last() == u);
    assert(numerator_text(Seq::<Unit<M>>::empty()) == Seq::<char>::empty());
    assert(denominator_text(Seq::<Unit<M>>::empty()) == Seq::<char>::empty());
    assert(numerator_text(single) =~= (if u.suffix.pow >= 0 {
        u.prefix.label@ + u.suffix.label@ + power_text(u.suffix.pow as int)
    } else {
        Seq::empty()
    }));
    assert(denominator_text(single) =~= (if u.suffix.pow < 0 {
        u.prefix.label@ + u.suffix.label@ + power_text(-u.suffix.pow)
    } else {
        Seq::empty()
    }));
}

/// The numerator and the denominator of a product of lists of units are
/// those of the first list followed by those of the second.
pub proof fn lemma_texts_concat<M>(a: Seq<Unit<M>>, b: Seq<Unit<M>>)
    ensures
        numerator_text(a + b) == numerator_text(a) + numerator_text(b),
        denominator_text(a + b) == denominator_text(a) + denominator_text(b),
    decreases b.len(),
{
    if b.len() == 0 {
        assert(a + b =~= a);
        assert(numerator_text(a) + numerator_text(b) =~= numerator_text(a));
        assert(denominator_text(a) + denominator_text(b) =~= denominator_text(a));
    } else {
        lemma_texts_concat(a, b.drop_last());
        assert((a + b).drop_last() =~= a + b.drop_last());
        assert((a + b).last() == b.last());
        assert(numerator_text(a + b) =~= numerator_text(a) + numerator_text(b));
        assert(denominator_text(a + b) =~= denominator_text(a) + denominator_text(b));
    }
}

/// A unit of non-negative power over a unit of negative power is written as
/// the first, a slash, and the second with its prefix, suffix and the
/// magnitude of its power.
pub proof fn lemma_quotient_label<M>(v: Unit<M>, u: Unit<M>)
    requires
        v.suffix.pow >= 0,
        u.suffix.pow < 0,
        u.suffix.label@.len() > 0,
    ensures
        compound_text(seq![v, u]) == v.prefix.label@ + v.suffix.label@ + power_text(
            v.suffix.pow as int,
        ) + seq!['/'] + u.prefix.label@ + u.suffix.label@ + power_text(-u.suffix.pow),
{
    lemma_single_unit_texts(v);
    lemma_single_unit_texts(u);
    lemma_texts_concat(seq![v], seq![u]);
    assert(seq![v] + seq![u] =~= seq![v, u]);
    let num = v.prefix.label@ + v.suffix.label@ + power_text(v.suffix.pow as int);
    let den = u.prefix.label@ + u.suffix.label@ + power_text(-u.suffix.pow);
    assert(numerator_text(seq![v, u]) =~= num);
    assert(denominator_text(seq![v, u]) =~= den);
    assert(den.len() > 0);
    assert(compound_text(seq![v, u]) =~= num + seq!['/'] + den);
}

} // verus!
