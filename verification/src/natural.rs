//! Natural numbers of any size, held as decimal digits.

use vstd::prelude::*;

verus! {

/// Ten to the power `exponent`.
pub open spec fn pow10(exponent: nat) -> nat
    decreases exponent,
{
    if exponent == 0 {
        1
    } else {
        10 * pow10((exponent - 1) as nat)
    }
}

/// The number that the decimal digits `digits` spell, least significant
/// digit first.
spec fn digits_value(digits: Seq<u8>) -> nat
    decreases digits.len(),
{
    if digits.len() == 0 {
        0
    } else {
        digits[0] as nat + 10 * digits_value(digits.drop_first())
    }
}

/// Decimal digits without a superfluous leading zero: at least one digit,
/// each below ten, and the most significant one zero only for the number
/// zero itself.
spec fn canonical_digits(digits: Seq<u8>) -> bool {
    &&& digits.len() >= 1
    &&& forall|i: int| 0 <= i < digits.len() ==> digits[i] < 10
    &&& digits.len() > 1 ==> digits.last() != 0
}

/// The character that stands for the decimal digit `digit`.
pub open spec fn digit_char(digit: nat) -> char {
    if digit == 0 {
        '0'
    } else if digit == 1 {
        '1'
    } else if digit == 2 {
        '2'
    } else if digit == 3 {
        '3'
    } else if digit == 4 {
        '4'
    } else if digit == 5 {
        '5'
    } else if digit == 6 {
        '6'
    } else if digit == 7 {
        '7'
    } else if digit == 8 {
        '8'
    } else {
        '9'
    }
}

/// The decimal numeral of `n`, most significant digit first, without
/// leading zeros.
pub open spec fn decimal_string(n: nat) -> Seq<char>
    decreases n,
{
    if n < 10 {
        seq![digit_char(n)]
    } else {
        decimal_string(n / 10).push(digit_char(n % 10))
    }
}

/// Appending a digit at the most significant end adds that digit times the
/// matching power of ten.
proof fn lemma_digits_value_push(digits: Seq<u8>, digit: u8)
    ensures
        digits_value(digits.push(digit)) == digits_value(digits) + digit * pow10(digits.len()),
    decreases digits.len(),
{
    if digits.len() == 0 {
        lemma_digits_value_single(digit);
        assert(digits.push(digit) =~= seq![digit]);
        assert(digit * pow10(0) == digit) by (nonlinear_arith)
            requires
                pow10(0) == 1,
        ;
    } else {
        let rest = digits.drop_first();
        let longer = digits.push(digit);
        lemma_digits_value_push(rest, digit);
        assert(longer.drop_first() =~= rest.push(digit));
        assert(longer[0] == digits[0]);
        assert(pow10(digits.len()) == 10 * pow10(rest.len()));
        assert(10 * (digits_value(rest) + digit * pow10(rest.len())) == 10 * digits_value(rest)
            + digit * (10 * pow10(rest.len()))) by (nonlinear_arith);
    }
}

/// A single digit spells itself.
proof fn lemma_digits_value_single(digit: u8)
    ensures
        digits_value(seq![digit]) == digit,
{
    let digits = seq![digit];
    assert(digits.drop_first() =~= Seq::<u8>::empty());
    assert(digits_value(Seq::<u8>::empty()) == 0);
    assert(digits_value(digits) == digits[0] as nat + 10 * digits_value(digits.drop_first()));
}

/// Digits whose most significant one is not zero spell a number of at least
/// ten to the power of their count less one.
proof fn lemma_digits_value_lower(digits: Seq<u8>)
    requires
        digits.len() >= 1,
        digits.last() != 0,
    ensures
        digits_value(digits) >= pow10((digits.len() - 1) as nat),
    decreases digits.len(),
{
    if digits.len() > 1 {
        let rest = digits.drop_first();
        assert(rest.last() == digits.last());
        lemma_digits_value_lower(rest);
    } else {
        assert(digits.drop_first().len() == 0);
    }
}

/// Canonical digits, read from the most significant end, are the decimal
/// numeral of the number they spell.
proof fn lemma_decimal_string_of_digits(digits: Seq<u8>)
    requires
        canonical_digits(digits),
    ensures
        decimal_string(digits_value(digits)) =~= Seq::new(
            digits.len(),
            |j: int| digit_char(digits[digits.len() - 1 - j] as nat),
        ),
    decreases digits.len(),
{
    let rest = digits.drop_first();
    if digits.len() == 1 {
        assert(rest.len() == 0);
        assert(digits_value(digits) == digits[0]);
    } else {
        assert(rest.last() == digits.last());
        assert(canonical_digits(rest));
        lemma_digits_value_lower(rest);
        lemma_decimal_string_of_digits(rest);
        let n = digits_value(digits);
        let m = digits_value(rest);
        assert(pow10((rest.len() - 1) as nat) >= 1) by {
            lemma_pow10_positive((rest.len() - 1) as nat);
        }
        assert(n == digits[0] + 10 * m);
        assert(n / 10 == m && n % 10 == digits[0]);
        assert(decimal_string(n) == decimal_string(m).push(digit_char(digits[0] as nat)));
    }
}

/// Every power of ten is positive.
pub proof fn lemma_pow10_positive(exponent: nat)
    ensures
        pow10(exponent) >= 1,
    decreases exponent,
{
    if exponent > 0 {
        lemma_pow10_positive((exponent - 1) as nat);
    }
}

/// The decimal numeral of a number has at least one digit, and the number
/// lies between the two powers of ten that the count of its digits names.
pub proof fn lemma_decimal_string_bounds(n: nat)
    ensures
        decimal_string(n).len() >= 1,
        n < pow10(decimal_string(n).len()),
        n > 0 ==> n >= pow10((decimal_string(n).len() - 1) as nat),
    decreases n,
{
    assert(pow10(0) == 1);
    assert(pow10(1) == 10 * pow10(0));
    if n >= 10 {
        lemma_decimal_string_bounds(n / 10);
        let shorter = decimal_string(n / 10).len();
        assert(decimal_string(n).len() == shorter + 1);
        assert(pow10(shorter + 1) == 10 * pow10(shorter));
        assert(pow10(shorter) == 10 * pow10((shorter - 1) as nat));
    }
}

/// A natural number of any size, held as its decimal digits.
#[derive(Debug)]
pub struct Natural {
    digits: Vec<u8>,
}

impl View for Natural {
    type V = nat;

    closed spec fn view(&self) -> nat {
        digits_value(self.digits@)
    }
}

impl Natural {
    #[verifier::type_invariant]
    spec fn canonical(&self) -> bool {
        canonical_digits(self.digits@)
    }

    /// The number zero.
    pub fn zero() -> (n: Natural)
        ensures
            n@ == 0,
    {
        let mut digits: Vec<u8> = Vec::new();
        digits.push(0);
        proof {
            assert(digits@ =~= seq![0u8]);
            lemma_digits_value_single(0);
        }
        Natural { digits }
    }

    /// The number one.
    pub fn one() -> (n: Natural)
        ensures
            n@ == 1,
    {
        let mut digits: Vec<u8> = Vec::new();
        digits.push(1);
        proof {
            assert(digits@ =~= seq![1u8]);
            lemma_digits_value_single(1);
        }
        Natural { digits }
    }

    /// Whether this is the number zero.
    pub fn is_zero(&self) -> (zero: bool)
        ensures
            zero == (self@ == 0),
    {
        proof {
            use_type_invariant(self);
            if self.digits@.len() > 1 {
                lemma_digits_value_lower(self.digits@);
                lemma_pow10_positive((self.digits@.len() - 1) as nat);
            } else {
                assert(self.digits@ =~= seq![self.digits@[0]]);
                lemma_digits_value_single(self.digits@[0]);
            }
        }
        self.digits.len() == 1 && self.digits[0] == 0
    }

    /// The number of digits of the decimal numeral.
    pub fn digit_count(&self) -> (count: usize)
        ensures
            count == decimal_string(self@).len(),
            count >= 1,
    {
        proof {
            use_type_invariant(self);
            lemma_decimal_string_of_digits(self.digits@);
        }
        self.digits.len()
    }

    /// The product of `self` and `factor`.
    pub fn mul_small(&self, factor: u8) -> (product: Natural)
        ensures
            product@ == self@ * factor,
    {
        proof {
            use_type_invariant(self);
        }
        if factor == 0 || self.is_zero() {
            assert(self@ * factor == 0) by (nonlinear_arith)
                requires
                    factor == 0 || self@ == 0,
            ;
            return Natural::zero();
        }
        let count: usize = self.digits.len();
        let ghost source = self.digits@;
        proof {
            if count == 1 {
                assert(source =~= seq![source[0]]);
                lemma_digits_value_single(source[0]);
            }
            assert(source[count - 1] != 0);
        }
        let mut digits: Vec<u8> = Vec::new();
        let mut carry: u32 = 0;
        let mut i: usize = 0;
        proof {
            assert(source.take(0) =~= Seq::<u8>::empty());
            assert(digits@ =~= Seq::<u8>::empty());
            assert(digits_value(Seq::<u8>::empty()) == 0);
            assert(factor * digits_value(source.take(0)) == 0) by (nonlinear_arith)
                requires
                    digits_value(source.take(0)) == 0,
            ;
            assert(carry * pow10(0) == 0) by (nonlinear_arith)
                requires
                    carry == 0,
            ;
        }
        while i < count
            invariant
                count == source.len(),
                source == self.digits@,
                canonical_digits(source),
                source[count - 1] != 0,
                factor >= 1,
                i <= count,
                digits@.len() == i,
                forall|j: int| 0 <= j < i ==> digits@[j] < 10,
                carry < factor,
                digits_value(digits@) + carry * pow10(i as nat) == factor * digits_value(
                    source.take(i as int),
                ),
                i > 0 && source[i - 1] != 0 && carry == 0 ==> digits@[i - 1] != 0,
            decreases count - i,
        {
            let digit: u8 = self.digits[i];
            assert(digit as u32 * factor as u32 + carry <= 9 * 255 + 255) by (nonlinear_arith)
                requires
                    digit < 10,
                    factor <= 255,
                    carry < factor,
            ;
            let total: u32 = digit as u32 * factor as u32 + carry;
            let low: u8 = (total % 10) as u8;
            let high: u32 = total / 10;
            proof {
                let unit = pow10(i as nat);
                let before = digits_value(source.take(i as int));
                lemma_digits_value_push(digits@, low);
                lemma_digits_value_push(source.take(i as int), digit);
                assert(source.take(i as int).push(digit) =~= source.take(i + 1));
                assert(pow10((i + 1) as nat) == 10 * unit);
                assert(digits_value(digits@) + low * unit + high * (10 * unit) == factor * (before
                    + digit * unit)) by (nonlinear_arith)
                    requires
                        digits_value(digits@) + carry * unit == factor * before,
                        total == digit * factor + carry,
                        total == 10 * high + low,
                ;
                assert(high < factor) by (nonlinear_arith)
                    requires
                        total == digit * factor + carry,
                        digit < 10,
                        carry < factor,
                        high == total / 10,
                ;
                if digit != 0 && high == 0 {
                    assert(total >= 1) by (nonlinear_arith)
                        requires
                            total == digit * factor + carry,
                            digit >= 1,
                            factor >= 1,
                    ;
                }
            }
            digits.push(low);
            carry = high;
            i += 1;
        }
        assert(source.take(count as int) =~= source);
        while carry > 0
            invariant
                digits@.len() >= 1,
                forall|j: int| 0 <= j < digits@.len() ==> digits@[j] < 10,
                digits_value(digits@) + carry * pow10(digits@.len()) == factor * digits_value(
                    source,
                ),
                carry == 0 ==> digits@.last() != 0,
            decreases carry,
        {
            let low: u8 = (carry % 10) as u8;
            let high: u32 = carry / 10;
            proof {
                let unit = pow10(digits@.len());
                lemma_digits_value_push(digits@, low);
                assert(pow10(digits@.len() + 1) == 10 * unit);
                assert(digits_value(digits@) + low * unit + high * (10 * unit) == digits_value(
                    digits@,
                ) + carry * unit) by (nonlinear_arith)
                    requires
                        carry == 10 * high + low,
                ;
            }
            digits.push(low);
            carry = high;
        }
        assert(factor * digits_value(source) == digits_value(source) * factor)
            by (nonlinear_arith);
        Natural { digits }
    }

    /// Twice `self`.
    pub fn double(&self) -> (twice: Natural)
        ensures
            twice@ == 2 * self@,
    {
        self.mul_small(2)
    }

    /// The decimal numeral of `self`.
    pub fn to_string(&self) -> (text: String)
        ensures
            text@ == decimal_string(self@),
    {
        proof {
            use_type_invariant(self);
            lemma_decimal_string_of_digits(self.digits@);
        }
        let count: usize = self.digits.len();
        let mut text = String::new();
        let mut i: usize = count;
        while i > 0
            invariant
                count == self.digits@.len(),
                canonical_digits(self.digits@),
                i <= count,
                text@ =~= Seq::new(
                    (count - i) as nat,
                    |j: int| digit_char(self.digits@[count - 1 - j] as nat),
                ),
            decreases i,
        {
            i -= 1;
            let ghost before = text@;
            let digit: u8 = self.digits[i];
            text.append(digit_str(digit));
            assert(text@ =~= before.push(digit_char(digit as nat)));
        }
        text
    }
}

impl Clone for Natural {
    fn clone(&self) -> (copy: Natural)
        ensures
            copy@ == self@,
    {
        proof {
            use_type_invariant(self);
        }
        let digits = self.digits.clone();
        assert(digits@ =~= self.digits@);
        Natural { digits }
    }
}

/// The one-character numeral of a decimal digit.
fn digit_str(digit: u8) -> (text: &'static str)
    requires
        digit < 10,
    ensures
        text@ == seq![digit_char(digit as nat)],
{
    proof {
        reveal_strlit("0");
        reveal_strlit("1");
        reveal_strlit("2");
        reveal_strlit("3");
        reveal_strlit("4");
        reveal_strlit("5");
        reveal_strlit("6");
        reveal_strlit("7");
        reveal_strlit("8");
        reveal_strlit("9");
    }
    let text = if digit == 0 {
        "0"
    } else if digit == 1 {
        "1"
    } else if digit == 2 {
        "2"
    } else if digit == 3 {
        "3"
    } else if digit == 4 {
        "4"
    } else if digit == 5 {
        "5"
    } else if digit == 6 {
        "6"
    } else if digit == 7 {
        "7"
    } else if digit == 8 {
        "8"
    } else {
        "9"
    };
    assert(text@ =~= seq![digit_char(digit as nat)]);
    text
}

} // verus!
