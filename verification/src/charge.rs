//! The charge of a turret or of a projectile: a value that doubles and a
//! level that counts the doublings.

use vstd::prelude::*;
use vstd::arithmetic::power2::{
    lemma2_to64, lemma_pow2_pos, lemma_pow2_strictly_increases, lemma_pow2_unfold, pow2,
};
use crate::natural::{decimal_string, lemma_decimal_string_bounds, pow10, Natural};
use crate::participant::Entity;

verus! {

/// What a charge is, as mathematics sees it.
pub struct ChargeView {
    /// The multiplier of a projectile's mass.
    pub value: nat,
    /// The tier that the charge ball's size follows.
    pub level: nat,
    /// The charge ball that mirrors this charge.
    pub link: Entity,
}

impl ChargeView {
    /// The charge that every turret starts with.
    pub open spec fn initial(link: Entity) -> ChargeView {
        ChargeView { value: 1, level: 1, link }
    }

    /// The charge after one multiplication: twice the value, one level up.
    pub open spec fn multiply(self) -> ChargeView {
        ChargeView { value: 2 * self.value, level: self.level + 1, link: self.link }
    }

    /// The charge after `count` multiplications.
    pub open spec fn multiply_times(self, count: nat) -> ChargeView
        decreases count,
    {
        if count == 0 {
            self
        } else {
            self.multiply_times((count - 1) as nat).multiply()
        }
    }

    /// The same value and level, mirrored by another charge ball.
    pub open spec fn relinked(self, link: Entity) -> ChargeView {
        ChargeView { value: self.value, level: self.level, link }
    }

    /// The value is two to the power of the level less one.
    pub open spec fn coupled(self) -> bool {
        &&& self.level >= 1
        &&& self.value == pow2((self.level - 1) as nat)
    }
}

/// The power that a turret has stored, or that a projectile carries.
#[derive(Debug)]
pub struct Charge {
    value: Natural,
    level: u128,
    link: Entity,
}

impl View for Charge {
    type V = ChargeView;

    closed spec fn view(&self) -> ChargeView {
        ChargeView { value: self.value@, level: self.level as nat, link: self.link }
    }
}

impl Charge {
    /// Every charge couples value and level.
    #[verifier::type_invariant]
    pub open spec fn coupled(&self) -> bool {
        self@.coupled()
    }

    /// The initial charge, mirrored by the charge ball `link`.
    pub fn from(link: Entity) -> (charge: Charge)
        ensures
            charge@ == ChargeView::initial(link),
    {
        proof {
            lemma_initial_coupled(link);
        }
        Charge { value: Natural::one(), level: 1, link }
    }

    /// A copy of `source` that the charge ball `link` mirrors. The source
    /// is left as it is.
    pub fn new(source: &Charge, link: Entity) -> (charge: Charge)
        ensures
            charge@ == source@.relinked(link),
    {
        proof {
            use_type_invariant(source);
        }
        Charge { value: source.value.clone(), level: source.level, link }
    }

    /// The charge that one multiplication makes of this one: twice the
    /// value, one level up.
    pub fn multiplied(&self) -> (charge: Charge)
        ensures
            charge@ == self@.multiply(),
    {
        proof {
            use_type_invariant(self);
        }
        // The digits of the value are held in memory, and the level is at
        // most four times their count: the level has room to grow.
        let digits: usize = self.value.digit_count();
        assert(self.level <= 4 * digits) by {
            lemma_level_below_digits(self@);
        }
        proof {
            lemma_multiply_coupled(self@);
        }
        Charge { value: self.value.double(), level: self.level + 1, link: self.link }
    }

    /// Doubles the value and raises the level by one.
    pub fn multiply(&mut self)
        ensures
            final(self)@ == old(self)@.multiply(),
    {
        *self = self.multiplied();
    }

    /// The multiplier of a projectile's mass.
    pub fn value(&self) -> (value: &Natural)
        ensures
            value@ == self@.value,
            self@.coupled(),
    {
        proof {
            use_type_invariant(self);
        }
        &self.value
    }

    /// The tier that the charge ball's size follows.
    pub fn level(&self) -> (level: u128)
        ensures
            level == self@.level,
            self@.coupled(),
    {
        proof {
            use_type_invariant(self);
        }
        self.level
    }

    /// The charge ball that mirrors this charge.
    pub fn link(&self) -> (link: Entity)
        ensures
            link == self@.link,
    {
        self.link
    }
}

impl Clone for Charge {
    fn clone(&self) -> (copy: Charge)
        ensures
            copy@ == self@,
    {
        proof {
            use_type_invariant(self);
        }
        Charge { value: self.value.clone(), level: self.level, link: self.link }
    }
}

/// No power of ten exceeds the power of two with four times the exponent.
proof fn lemma_pow10_below_pow2(exponent: nat)
    ensures
        pow10(exponent) <= pow2(4 * exponent),
    decreases exponent,
{
    if exponent == 0 {
        lemma_pow2_pos(0);
    } else {
        lemma_pow10_below_pow2((exponent - 1) as nat);
        let e = 4 * exponent;
        lemma_pow2_unfold(e as nat);
        lemma_pow2_unfold((e - 1) as nat);
        lemma_pow2_unfold((e - 2) as nat);
        lemma_pow2_unfold((e - 3) as nat);
    }
}

/// The level of a charge is at most four times the number of digits of
/// its value: a level never outgrows what holds the value.
pub proof fn lemma_level_below_digits(charge: ChargeView)
    requires
        charge.coupled(),
    ensures
        charge.level <= 4 * decimal_string(charge.value).len(),
{
    let exponent = (charge.level - 1) as nat;
    let digits = decimal_string(charge.value).len();
    lemma_decimal_string_bounds(charge.value);
    lemma_pow10_below_pow2(digits);
    if exponent > 4 * digits {
        lemma_pow2_strictly_increases(4 * digits, exponent);
    }
}

/// The initial charge couples value and level.
pub proof fn lemma_initial_coupled(link: Entity)
    ensures
        ChargeView::initial(link).coupled(),
{
    lemma2_to64();
}

/// A multiplication keeps value and level coupled.
pub proof fn lemma_multiply_coupled(charge: ChargeView)
    requires
        charge.coupled(),
    ensures
        charge.multiply().coupled(),
{
    lemma_pow2_unfold(charge.level);
}

/// Every charge that can come about couples value and level: the initial
/// charge, what any number of multiplications makes of it, and every copy of
/// that under another link.
pub proof fn lemma_value_level_coupling(link: Entity, count: nat, copy_link: Entity)
    ensures
        ChargeView::initial(link).multiply_times(count).coupled(),
        ChargeView::initial(link).multiply_times(count).relinked(copy_link).coupled(),
{
    lemma_initial_coupled(link);
    lemma_multiply_times_coupled(ChargeView::initial(link), count);
}

/// After `count` multiplications the initial charge has the value two to
/// the power `count` and the level `count` plus one.
pub proof fn lemma_charge_doubling(link: Entity, count: nat)
    ensures
        ChargeView::initial(link).multiply_times(count) == (ChargeView {
            value: pow2(count),
            level: count + 1,
            link,
        }),
    decreases count,
{
    if count == 0 {
        lemma2_to64();
    } else {
        lemma_charge_doubling(link, (count - 1) as nat);
        lemma_pow2_unfold(count);
    }
}

/// Multiplications keep value and level coupled, however many there are.
pub proof fn lemma_multiply_times_coupled(charge: ChargeView, count: nat)
    requires
        charge.coupled(),
    ensures
        charge.multiply_times(count).coupled(),
        charge.multiply_times(count).value == charge.value * pow2(count),
        charge.multiply_times(count).level == charge.level + count,
        charge.multiply_times(count).link == charge.link,
    decreases count,
{
    if count == 0 {
        lemma2_to64();
    } else {
        lemma_multiply_times_coupled(charge, (count - 1) as nat);
        lemma_multiply_coupled(charge.multiply_times((count - 1) as nat));
        lemma_pow2_unfold(count);
        assert(2 * (charge.value * pow2((count - 1) as nat)) == charge.value * (2 * pow2(
            (count - 1) as nat,
        ))) by (nonlinear_arith);
    }
}

} // verus!
