//! Decimal values: what a decimal holds, digit by digit, and what each
//! operation of the digit pipeline does to it.

use crate::rounding::RoundingMode;
use fixed_decimal::Decimal;
use fixed_decimal::SignedRoundingMode;
use fixed_decimal::UnsignedRoundingMode;
use vstd::prelude::*;

verus! {

/// `Signed` of fixed_decimal, a number with its sign: declared so that a
/// `Decimal` can be carried through; nothing is known of what is inside.
#[verifier::external_type_specification]
#[verifier::external_body]
#[verifier::reject_recursive_types(T)]
pub struct ExSigned<T>(fixed_decimal::Signed<T>);

/// `UnsignedDecimal` of fixed_decimal, the digits of a `Decimal`: declared
/// so that a `Decimal` can be carried through; nothing is known of what is
/// inside.
#[verifier::external_type_specification]
#[verifier::external_body]
pub struct ExUnsignedDecimal(fixed_decimal::UnsignedDecimal);

/// The sign that a decimal is written with.
#[derive(Clone, Copy, PartialEq, Eq, Structural, Debug)]
pub enum Sign {
    /// No sign is written.
    Unsigned,
    /// A minus sign is written.
    Negative,
    /// A plus sign is written.
    Positive,
}

/// What a decimal holds: its sign, its visible digits from the most
/// significant to the least, and how many of them stand before the point.
/// Zeros at either end are part of the value: digit counts carry meaning.
pub struct DecimalModel {
    pub sign: Sign,
    pub digits: Seq<int>,
    pub point: int,
}

/// The visible digits of a decimal, the most significant first: those that
/// its text shows, zeros at either end included.
pub uninterp spec fn decimal_digits(d: Decimal) -> Seq<int>;

/// The number of visible digits of a decimal that stand before the point.
pub uninterp spec fn decimal_point(d: Decimal) -> int;

/// The sign that a decimal is written with.
pub uninterp spec fn decimal_sign(d: Decimal) -> Sign;

/// The contents of a decimal.
pub open spec fn model_of(d: Decimal) -> DecimalModel {
    DecimalModel { sign: decimal_sign(d), digits: decimal_digits(d), point: decimal_point(d) }
}

/// `count` zeros.
pub open spec fn zeros(count: int) -> Seq<int> {
    Seq::new(
        if count > 0 {
            count as nat
        } else {
            0
        },
        |i: int| 0int,
    )
}

/// The number of zeros at the front of `digits`.
pub open spec fn leading_zeros(digits: Seq<int>) -> int
    decreases digits.len(),
{
    if digits.len() == 0 || digits[0] != 0 {
        0
    } else {
        1 + leading_zeros(digits.skip(1))
    }
}

/// The number of zeros at the back of `digits`.
pub open spec fn trailing_zeros(digits: Seq<int>) -> int
    decreases digits.len(),
{
    if digits.len() == 0 || digits.last() != 0 {
        0
    } else {
        1 + trailing_zeros(digits.drop_last())
    }
}

/// The digits of `n` in base ten, without leading zeros; one zero for zero.
pub open spec fn base_ten(n: nat) -> Seq<int>
    decreases n,
{
    if n < 10 {
        seq![n as int]
    } else {
        base_ten(n / 10).push((n % 10) as int)
    }
}

/// The larger of two integers.
pub open spec fn larger(a: int, b: int) -> int {
    if a >= b {
        a
    } else {
        b
    }
}

impl DecimalModel {
    /// At least one digit stands before the point, and every digit is a
    /// digit.
    pub open spec fn wf(self) -> bool {
        &&& 1 <= self.point <= self.digits.len()
        &&& forall|i: int| 0 <= i < self.digits.len() ==> 0 <= #[trigger] self.digits[i] <= 9
    }

    /// The number of digits after the point.
    pub open spec fn fraction_len(self) -> int {
        self.digits.len() - self.point
    }

    /// Whether every digit is zero.
    pub open spec fn is_zero(self) -> bool {
        leading_zeros(self.digits) >= self.digits.len()
    }

    /// The digit that stands for the power of ten `magnitude`; zero where no
    /// digit is visible.
    pub open spec fn digit_at(self, magnitude: int) -> int {
        let index = self.point - 1 - magnitude;
        if 0 <= index < self.digits.len() {
            self.digits[index]
        } else {
            0
        }
    }

    /// An integer as a decimal: its digits in base ten, a minus sign if it
    /// is negative, nothing after the point.
    pub open spec fn from_int(n: int) -> DecimalModel {
        let magnitude: nat = if n < 0 {
            (-n) as nat
        } else {
            n as nat
        };
        DecimalModel {
            sign: if n < 0 {
                Sign::Negative
            } else {
                Sign::Unsigned
            },
            digits: base_ten(magnitude),
            point: base_ten(magnitude).len() as int,
        }
    }

    /// The one-digit zero with the sign of `self`.
    pub open spec fn cleared(self) -> DecimalModel {
        DecimalModel { sign: self.sign, digits: seq![0int], point: 1 }
    }

    /// The value times ten to the power `delta`, for a positive `delta`:
    /// the point moves right, and zeros fill the places it passes beyond
    /// the last digit. A value that would get more than 32768 digits before
    /// the point becomes zero.
    pub open spec fn shifted_up(self, delta: int) -> DecimalModel {
        if self.point + delta > 32768 {
            self.cleared()
        } else {
            DecimalModel {
                sign: self.sign,
                digits: self.digits + zeros(delta - self.fraction_len()),
                point: self.point + delta,
            }
        }
    }

    /// Without the zeros at the front, but for the digit just before the
    /// point.
    pub open spec fn trimmed_start(self) -> DecimalModel {
        let drop = if leading_zeros(self.digits) < self.point - 1 {
            leading_zeros(self.digits)
        } else {
            self.point - 1
        };
        DecimalModel { sign: self.sign, digits: self.digits.skip(drop), point: self.point - drop }
    }

    /// What the engine's padding at the front makes of a value: exactly
    /// `position` digits before the point, or as many as the value needs if
    /// that is more, so that surplus zeros at the front go. A `position`
    /// below one changes nothing.
    pub open spec fn with_integer_digits(self, position: int) -> DecimalModel {
        if position <= 0 {
            self
        } else {
            let needed = if self.is_zero() {
                1
            } else {
                self.point - leading_zeros(self.digits)
            };
            let point = larger(position, needed);
            DecimalModel {
                sign: self.sign,
                digits: if point >= self.point {
                    zeros(point - self.point) + self.digits
                } else {
                    self.digits.skip(self.point - point)
                },
                point: point,
            }
        }
    }

    /// What the engine's padding at the back makes of a value: exactly
    /// `count` digits after the point, or as many as the value needs if that
    /// is more, so that surplus zeros at the back go. A negative `count`
    /// changes nothing.
    pub open spec fn with_fraction_digits(self, count: int) -> DecimalModel {
        if count < 0 {
            self
        } else {
            let needed = if self.is_zero() {
                0
            } else {
                self.fraction_len() - trailing_zeros(self.digits)
            };
            let len = self.point + larger(count, needed);
            DecimalModel {
                sign: self.sign,
                digits: if len >= self.digits.len() {
                    self.digits + zeros(len - self.digits.len())
                } else {
                    self.digits.take(len)
                },
                point: self.point,
            }
        }
    }

    /// Padded at the back to at least `count` digits after the point: zeros
    /// are added where there are fewer, and nothing changes where there are
    /// as many or more.
    pub open spec fn extended_end(self, count: int) -> DecimalModel {
        if count > self.fraction_len() {
            DecimalModel {
                sign: self.sign,
                digits: self.digits + zeros(count - self.fraction_len()),
                point: self.point,
            }
        } else {
            self
        }
    }

    /// Padded at the front to at least `count` digits before the point:
    /// zeros are added where there are fewer, and nothing changes where
    /// there are as many or more.
    pub open spec fn extended_start(self, count: int) -> DecimalModel {
        if count > self.point {
            DecimalModel {
                sign: self.sign,
                digits: zeros(count - self.point) + self.digits,
                point: count,
            }
        } else {
            self
        }
    }
}

/// The zeros counted at the front of a run of digits are zeros, and the
/// digit after them, if there is one, is not.
pub proof fn lemma_leading_zeros(digits: Seq<int>)
    ensures
        0 <= leading_zeros(digits) <= digits.len(),
        forall|i: int| 0 <= i < leading_zeros(digits) ==> #[trigger] digits[i] == 0,
        leading_zeros(digits) < digits.len() ==> digits[leading_zeros(digits)] != 0,
    decreases digits.len(),
{
    if digits.len() > 0 && digits[0] == 0 {
        let rest = digits.skip(1);
        lemma_leading_zeros(rest);
        assert forall|i: int| 0 <= i < leading_zeros(digits) implies #[trigger] digits[i]
            == 0 by {
            if i > 0 {
                assert(digits[i] == rest[i - 1]);
            }
        }
        if leading_zeros(digits) < digits.len() {
            assert(digits[leading_zeros(digits)] == rest[leading_zeros(rest)]);
        }
    }
}

/// The zeros counted at the back of a run of digits are zeros, and the
/// digit before them, if there is one, is not.
pub proof fn lemma_trailing_zeros(digits: Seq<int>)
    ensures
        0 <= trailing_zeros(digits) <= digits.len(),
        forall|i: int|
            digits.len() - trailing_zeros(digits) <= i < digits.len() ==> #[trigger] digits[i]
                == 0,
        trailing_zeros(digits) < digits.len() ==> digits[digits.len() - trailing_zeros(digits)
            - 1] != 0,
    decreases digits.len(),
{
    if digits.len() > 0 && digits.last() == 0 {
        let rest = digits.drop_last();
        lemma_trailing_zeros(rest);
        assert forall|i: int|
            digits.len() - trailing_zeros(digits) <= i < digits.len() implies #[trigger] digits[i]
            == 0 by {
            if i < digits.len() - 1 {
                assert(digits[i] == rest[i]);
            }
        }
        if trailing_zeros(digits) < digits.len() {
            assert(digits[digits.len() - trailing_zeros(digits) - 1] == rest[rest.len()
                - trailing_zeros(rest) - 1]);
        }
    }
}

/// Where a value has fewer digits after the point than `count`, the
/// engine's padding at the back only adds zeros.
pub proof fn lemma_fraction_digits_extend(m: DecimalModel, count: int)
    requires
        0 <= m.fraction_len() < count,
    ensures
        m.with_fraction_digits(count) == m.extended_end(count),
{
    lemma_trailing_zeros(m.digits);
    assert(m.with_fraction_digits(count).digits =~= m.extended_end(count).digits);
}

/// Where a value has fewer digits before the point than `count`, the
/// engine's padding at the front only adds zeros.
pub proof fn lemma_integer_digits_extend(m: DecimalModel, count: int)
    requires
        1 <= m.point < count,
    ensures
        m.with_integer_digits(count) == m.extended_start(count),
{
    lemma_leading_zeros(m.digits);
    assert(m.with_integer_digits(count).digits =~= m.extended_start(count).digits);
}

/// Padding at the back removes nothing: the digits are the old ones
/// followed by zeros, there are as many after the point as before or
/// `count` if that is more, and every digit stands where it stood.
pub proof fn law_extended_end(m: DecimalModel, count: int)
    requires
        m.wf(),
    ensures
        m.extended_end(count).wf(),
        m.extended_end(count).sign == m.sign,
        m.extended_end(count).point == m.point,
        m.extended_end(count).fraction_len() == larger(m.fraction_len(), count),
        m.extended_end(count).digits == m.digits + zeros(count - m.fraction_len()),
        forall|k: int| #[trigger] m.extended_end(count).digit_at(k) == m.digit_at(k),
{
    assert(m.digits + zeros(count - m.fraction_len()) =~= m.extended_end(count).digits);
}

/// Padding at the front removes nothing: the digits are zeros followed by
/// the old ones, there are as many before the point as before or `count`
/// if that is more, and every digit stands where it stood.
pub proof fn law_extended_start(m: DecimalModel, count: int)
    requires
        m.wf(),
    ensures
        m.extended_start(count).wf(),
        m.extended_start(count).sign == m.sign,
        m.extended_start(count).fraction_len() == m.fraction_len(),
        m.extended_start(count).point == larger(m.point, count),
        m.extended_start(count).digits == zeros(count - m.point) + m.digits,
        forall|k: int| #[trigger] m.extended_start(count).digit_at(k) == m.digit_at(k),
{
    assert(zeros(count - m.point) + m.digits =~= m.extended_start(count).digits);
}

/// Trimming at the front changes no digit of the value and leaves at least
/// one digit before the point.
pub proof fn law_trimmed_start(m: DecimalModel)
    requires
        m.wf(),
    ensures
        m.trimmed_start().wf(),
        m.trimmed_start().sign == m.sign,
        m.trimmed_start().fraction_len() == m.fraction_len(),
        forall|k: int| #[trigger] m.trimmed_start().digit_at(k) == m.digit_at(k),
{
    lemma_leading_zeros(m.digits);
    let r = m.trimmed_start();
    assert forall|k: int| #[trigger] r.digit_at(k) == m.digit_at(k) by {
        let index = m.point - 1 - k;
        if 0 <= index < m.point - r.point {
            assert(m.digits[index] == 0);
        }
    }
}

/// Scaling up by a power of ten moves every digit up by that many places,
/// unless the value gets too long and becomes zero.
pub proof fn law_shifted_up(m: DecimalModel, delta: int)
    requires
        m.wf(),
        delta > 0,
    ensures
        m.shifted_up(delta).wf(),
        m.shifted_up(delta).sign == m.sign,
        m.point + delta <= 32768 ==> forall|k: int| #[trigger]
            m.shifted_up(delta).digit_at(k + delta) == m.digit_at(k),
{
}

/// The text of a decimal digit.
pub open spec fn digit_char(digit: int) -> char {
    (('0' as u32) + digit) as char
}

/// The text of a run of digits.
pub open spec fn digit_text(digits: Seq<int>) -> Seq<char> {
    Seq::new(digits.len(), |i: int| digit_char(digits[i]))
}

/// The text of a sign.
pub open spec fn sign_text(sign: Sign) -> Seq<char> {
    match sign {
        Sign::Unsigned => Seq::empty(),
        Sign::Negative => seq!['-'],
        Sign::Positive => seq!['+'],
    }
}

/// The text of a decimal: the sign, the digits before the point and, if
/// there are digits after it, the point and those digits.
pub open spec fn decimal_text(m: DecimalModel) -> Seq<char> {
    let whole = sign_text(m.sign) + digit_text(m.digits.take(m.point));
    if m.fraction_len() > 0 {
        whole + seq!['.'] + digit_text(m.digits.skip(m.point))
    } else {
        whole
    }
}

/// What parsing a text as a decimal gives: nothing where the text is not
/// accepted.
pub uninterp spec fn parsed_decimal(text: Seq<char>) -> Option<DecimalModel>;

/// What rounding a decimal at the power of ten `position` gives under
/// `mode`.
pub uninterp spec fn rounded_decimal(
    m: DecimalModel,
    position: int,
    mode: RoundingMode,
) -> DecimalModel;

/// `Decimal::from` of fixed_decimal for an `i64`: the decimal shows the
/// digits of the integer in base ten, with a minus sign if it is negative.
#[verifier::external_body]
pub(crate) fn decimal_from_i64(n: i64) -> (d: Decimal)
    ensures
        decimal_sign(d) == DecimalModel::from_int(n as int).sign,
        decimal_digits(d) == DecimalModel::from_int(n as int).digits,
        decimal_point(d) == DecimalModel::from_int(n as int).point,
{
    Decimal::from(n)
}

/// `Decimal::try_from_str` of fixed_decimal: whether the text is accepted
/// and what the decimal then holds depend on the text alone.
#[verifier::external_body]
pub(crate) fn decimal_from_str(text: &str) -> (parsed: Option<Decimal>)
    ensures
        match parsed {
            Some(d) => parsed_decimal(text@) == Some(model_of(d)),
            None => parsed_decimal(text@) is None,
        },
{
    Decimal::try_from_str(text).ok()
}

/// `multiply_pow10` of fixed_decimal, for a positive power: the point moves
/// right by `delta` places; the sign stays.
#[verifier::external_body]
pub(crate) fn decimal_multiply_pow10(d: &mut Decimal, delta: i16)
    requires
        delta > 0,
    ensures
        model_of(*final(d)) == model_of(*old(d)).shifted_up(delta as int),
{
    d.multiply_pow10(delta)
}

/// `trim_start` of fixed_decimal: the leading zeros go, but for the digit
/// just before the point.
#[verifier::external_body]
pub(crate) fn decimal_trim_start(d: &mut Decimal)
    ensures
        model_of(*final(d)) == model_of(*old(d)).trimmed_start(),
{
    d.trim_start()
}

/// `round_with_mode` of fixed_decimal, for a position at or below zero: the
/// result depends on the decimal, the position and the mode alone.
#[verifier::external_body]
pub(crate) fn decimal_round_with_mode(d: &mut Decimal, position: i16, mode: RoundingMode)
    requires
        -32767 <= position <= 0,
    ensures
        model_of(*final(d)) == rounded_decimal(model_of(*old(d)), position as int, mode),
{
    d.round_with_mode(position, match mode {
        RoundingMode::Ceil => SignedRoundingMode::Ceil,
        RoundingMode::Floor => SignedRoundingMode::Floor,
        RoundingMode::Expand => SignedRoundingMode::Unsigned(UnsignedRoundingMode::Expand),
        RoundingMode::Trunc => SignedRoundingMode::Unsigned(UnsignedRoundingMode::Trunc),
        RoundingMode::HalfCeil => SignedRoundingMode::HalfCeil,
        RoundingMode::HalfFloor => SignedRoundingMode::HalfFloor,
        RoundingMode::HalfExpand => SignedRoundingMode::Unsigned(UnsignedRoundingMode::HalfExpand),
        RoundingMode::HalfTrunc => SignedRoundingMode::Unsigned(UnsignedRoundingMode::HalfTrunc),
        RoundingMode::HalfEven => SignedRoundingMode::Unsigned(UnsignedRoundingMode::HalfEven),
    })
}

/// `pad_end` of fixed_decimal, for a position at or below zero: the decimal
/// gets exactly `-position` digits after the point, or as many as its value
/// needs if that is more.
#[verifier::external_body]
pub(crate) fn decimal_pad_end(d: &mut Decimal, position: i16)
    requires
        position <= 0,
    ensures
        model_of(*final(d)) == model_of(*old(d)).with_fraction_digits(-position),
{
    d.pad_end(position)
}

/// `pad_start` of fixed_decimal: the decimal gets exactly `position` digits
/// before the point, or as many as its value needs if that is more.
#[verifier::external_body]
pub(crate) fn decimal_pad_start(d: &mut Decimal, position: i16)
    ensures
        model_of(*final(d)) == model_of(*old(d)).with_integer_digits(position as int),
{
    d.pad_start(position)
}

/// `magnitude_range` of fixed_decimal: the powers of ten of the last and of
/// the first visible digit. The digit just before the point, of power zero,
/// is always among the visible ones.
#[verifier::external_body]
pub(crate) fn decimal_magnitude_range(d: &Decimal) -> (range: (i16, i16))
    ensures
        range.0 == -model_of(*d).fraction_len(),
        range.1 == model_of(*d).point - 1,
        range.0 <= 0 <= range.1,
{
    let range = d.magnitude_range();
    (*range.start(), *range.end())
}

/// `to_string` of a fixed_decimal `Decimal`: the sign, the digits, and the
/// point before the first digit after it.
#[verifier::external_body]
pub(crate) fn decimal_to_string(d: &Decimal) -> (text: String)
    ensures
        text@ == decimal_text(model_of(*d)),
{
    d.to_string()
}

} // verus!
