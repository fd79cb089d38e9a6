//! Decimal numbers as a Postgres server sends them: a header of four
//! 16-bit words (count of digits, weight, sign, scale) followed by the digits
//! of the number in base 10000, most significant first.
use vstd::prelude::*;
use vstd::slice::slice_to_vec;
use bigdecimal::num_bigint::BigInt;
use bigdecimal::num_bigint::Sign;
use bigdecimal::BigDecimal;
use bigdecimal::ToPrimitive;
use crate::postgres::Error;
use crate::postgres::PgType;

verus! {

/// Ten to the power of `n`.
pub open spec fn pow10(n: nat) -> nat
    decreases n,
{
    if n == 0 {
        1
    } else {
        10 * pow10((n - 1) as nat)
    }
}

/// The number that digits stand for in a radix, most significant first.
pub open spec fn radix_value(digits: Seq<int>, radix: int) -> int
    decreases digits.len(),
{
    if digits.len() == 0 {
        0
    } else {
        radix_value(digits.drop_last(), radix) * radix + digits.last()
    }
}

/// The digits of a byte string, as integers.
pub open spec fn as_ints(digits: Seq<u8>) -> Seq<int> {
    digits.map_values(|d: u8| d as int)
}

/// How many 16-bit words a byte string holds. An odd byte at the end counts
/// as the high byte of a last word.
pub open spec fn word_count(raw: Seq<u8>) -> int {
    ((raw.len() + 1) / 2) as int
}

/// The `i`-th 16-bit word of a byte string, high byte first.
pub open spec fn word_at(raw: Seq<u8>, i: int) -> int {
    if 2 * i + 1 < raw.len() {
        raw[2 * i] * 256 + raw[2 * i + 1]
    } else {
        raw[2 * i] * 256
    }
}

/// The words of a byte string from the `from`-th on, `count` of them.
pub open spec fn words_from(raw: Seq<u8>, from: int, count: int) -> Seq<int> {
    Seq::new(count as nat, |i: int| word_at(raw, from + i))
}

/// The sign word of a number that is not negative.
pub const SIGN_PLUS: u16 = 0x0000;

/// The sign word of a negative number.
pub const SIGN_MINUS: u16 = 0x4000;

/// What a byte string says of a number, where it says anything.
pub struct Numeric {
    /// Whether the number is negative.
    pub negative: bool,
    /// The digits of the number without its decimal point, as one integer.
    pub magnitude: nat,
    /// How many of the decimal digits stand behind the decimal point.
    pub scale: nat,
}

/// How many base-10000 digits of a well-formed number stand behind the
/// decimal point.
pub open spec fn digits_right(raw: Seq<u8>) -> int {
    word_at(raw, 0) - word_at(raw, 1) - 1
}

/// Whether a byte string is a decimal number that can be read: the header is
/// there and so are the digits it counts; every digit is below 10000; the
/// sign is one of the two known; the digits behind the point are counted
/// without overflow of a 16-bit word and are no more than the scale allows.
pub open spec fn well_formed(raw: Seq<u8>) -> bool {
    &&& word_count(raw) >= 4
    &&& word_count(raw) >= 4 + word_at(raw, 0)
    &&& forall|i: int| 0 <= i < word_at(raw, 0) ==> #[trigger] word_at(raw, 4 + i) < 10000
    &&& (word_at(raw, 2) == SIGN_PLUS || word_at(raw, 2) == SIGN_MINUS)
    &&& 0 <= digits_right(raw)
    &&& digits_right(raw) * 4 <= word_at(raw, 3)
}

/// The number that a well-formed byte string stands for. The digits in base
/// 10000 are followed by as many decimal zeros as the scale asks for beyond
/// the digits that stand behind the point.
pub open spec fn numeric_of(raw: Seq<u8>) -> Numeric {
    Numeric {
        negative: word_at(raw, 2) == SIGN_MINUS,
        magnitude: (radix_value(words_from(raw, 4, word_at(raw, 0)), 10000) * pow10(
            (word_at(raw, 3) - digits_right(raw) * 4) as nat,
        )) as nat,
        scale: word_at(raw, 3) as nat,
    }
}

/// Digits that are not negative stand for a number that is not negative.
pub proof fn lemma_radix_value_not_negative(digits: Seq<int>, radix: int)
    requires
        radix >= 0,
        forall|i: int| 0 <= i < digits.len() ==> #[trigger] digits[i] >= 0,
    ensures
        radix_value(digits, radix) >= 0,
    decreases digits.len(),
{
    if digits.len() > 0 {
        lemma_radix_value_not_negative(digits.drop_last(), radix);
        assert(radix_value(digits.drop_last(), radix) * radix >= 0) by (nonlinear_arith)
            requires
                radix_value(digits.drop_last(), radix) >= 0,
                radix >= 0,
        ;
    }
}

/// Appending a digit multiplies by the radix and adds the digit.
pub proof fn lemma_radix_push(digits: Seq<int>, digit: int, radix: int)
    ensures
        radix_value(digits.push(digit), radix) == radix_value(digits, radix) * radix + digit,
{
    assert(digits.push(digit).drop_last() =~= digits);
}

/// Reads the 16-bit words of a byte string, high byte first. An odd byte at
/// the end is the high byte of a last word.
pub fn read_words(raw: &[u8]) -> (r: Vec<u16>)
    ensures
        r@.len() == word_count(raw@),
        forall|i: int| 0 <= i < r@.len() ==> #[trigger] r@[i] == word_at(raw@, i),
{
    let mut words: Vec<u16> = Vec::new();
    let count: usize = raw.len() / 2 + raw.len() % 2;
    let mut k: usize = 0;
    while k < count
        invariant
            count == word_count(raw@),
            2 * count <= raw@.len() + 1,
            raw@.len() <= usize::MAX,
            k <= count,
            words@.len() == k,
            forall|j: int| 0 <= j < words@.len() ==> #[trigger] words@[j] == word_at(raw@, j),
        decreases count - k,
    {
        let at: usize = 2 * k;
        let high: u16 = raw[at] as u16;
        let word: u16 = if at + 1 < raw.len() {
            let low: u16 = raw[at + 1] as u16;
            high * 256 + low
        } else {
            high * 256
        };
        words.push(word);
        k += 1;
    }
    words
}

/// The four decimal digits of a digit in base 10000, most significant first.
pub fn decimal_digits_of(digit: u16) -> (r: [u8; 4])
    requires
        digit < 10000,
    ensures
        r[0] < 10 && r[1] < 10 && r[2] < 10 && r[3] < 10,
        r[0] * 1000 + r[1] * 100 + r[2] * 10 + r[3] == digit,
{
    let ones: u16 = digit % 10;
    let above_ones: u16 = digit / 10;
    let tens: u16 = above_ones % 10;
    let above_tens: u16 = above_ones / 10;
    let hundreds: u16 = above_tens % 10;
    let thousands: u16 = above_tens / 10;
    [thousands as u8, hundreds as u8, tens as u8, ones as u8]
}

/// The decimal digits of `count` digits in base 10000, followed by `zeros`
/// zeros. The digits are those of `words` from the fifth word on.
fn decimal_digits(words: &Vec<u16>, count: usize, zeros: usize, Ghost(raw): Ghost<Seq<u8>>) -> (r:
    Vec<u8>)
    requires
        4 + count <= words@.len(),
        forall|i: int| 0 <= i < words@.len() ==> #[trigger] words@[i] == word_at(raw, i),
        forall|i: int| 0 <= i < count ==> #[trigger] word_at(raw, 4 + i) < 10000,
    ensures
        forall|i: int| 0 <= i < r@.len() ==> #[trigger] r@[i] < 10,
        radix_value(as_ints(r@), 10) == radix_value(words_from(raw, 4, count as int), 10000)
            * pow10(zeros as nat),
        radix_value(as_ints(r@), 10) >= 0,
{
    let mut digits: Vec<u8> = Vec::new();
    let mut i: usize = 0;
    proof {
        assert(as_ints(digits@) =~= Seq::<int>::empty());
        assert(words_from(raw, 4, 0) =~= Seq::<int>::empty());
    }
    let available = words.len();
    while i < count
        invariant
            i <= count,
            4 + count <= words@.len(),
            words@.len() == available,
            forall|j: int| 0 <= j < words@.len() ==> #[trigger] words@[j] == word_at(raw, j),
            forall|j: int| 0 <= j < count ==> #[trigger] word_at(raw, 4 + j) < 10000,
            forall|j: int| 0 <= j < digits@.len() ==> #[trigger] digits@[j] < 10,
            radix_value(as_ints(digits@), 10) == radix_value(words_from(raw, 4, i as int), 10000),
        decreases count - i,
    {
        let word = words[4 + i];
        assert(word == word_at(raw, 4 + i));
        let four = decimal_digits_of(word);
        let ghost before = as_ints(digits@);
        digits.push(four[0]);
        digits.push(four[1]);
        digits.push(four[2]);
        digits.push(four[3]);
        proof {
            let a = four[0] as int;
            let b = four[1] as int;
            let c = four[2] as int;
            let d = four[3] as int;
            assert(as_ints(digits@) =~= before.push(a).push(b).push(c).push(d));
            lemma_radix_push(before, a, 10);
            lemma_radix_push(before.push(a), b, 10);
            lemma_radix_push(before.push(a).push(b), c, 10);
            lemma_radix_push(before.push(a).push(b).push(c), d, 10);
            assert(words_from(raw, 4, i + 1) =~= words_from(raw, 4, i as int).push(word as int));
            lemma_radix_push(words_from(raw, 4, i as int), word as int, 10000);
        }
        i += 1;
    }
    let mut z: usize = 0;
    while z < zeros
        invariant
            z <= zeros,
            forall|j: int| 0 <= j < digits@.len() ==> #[trigger] digits@[j] < 10,
            radix_value(as_ints(digits@), 10) == radix_value(
                words_from(raw, 4, count as int),
                10000,
            ) * pow10(z as nat),
        decreases zeros - z,
    {
        let ghost before = as_ints(digits@);
        let ghost value = radix_value(words_from(raw, 4, count as int), 10000);
        digits.push(0);
        proof {
            assert(as_ints(digits@) =~= before.push(0));
            lemma_radix_push(before, 0, 10);
            assert(value * pow10(z as nat) * 10 == value * (10 * pow10(z as nat)))
                by (nonlinear_arith);
        }
        z += 1;
    }
    proof {
        lemma_radix_value_not_negative(as_ints(digits@), 10);
    }
    digits
}

/// `num_bigint`'s integer of any size. `bigint_value` names the integer it
/// holds.
#[verifier::external_type_specification]
#[verifier::external_body]
pub struct ExBigInt(bigdecimal::num_bigint::BigInt);

/// `bigdecimal`'s decimal number of any size. `decimal_unscaled` and
/// `decimal_scale` name its digits and its scale.
#[verifier::external_type_specification]
#[verifier::external_body]
pub struct ExBigDecimal(bigdecimal::BigDecimal);

/// The integer that a big integer holds.
pub uninterp spec fn bigint_value(b: bigdecimal::num_bigint::BigInt) -> int;

/// The digits of a decimal number without its decimal point, as one
/// integer.
pub uninterp spec fn decimal_unscaled(d: bigdecimal::BigDecimal) -> int;

/// How many digits of a decimal number stand behind its decimal point.
pub uninterp spec fn decimal_scale(d: bigdecimal::BigDecimal) -> int;

/// The text of a decimal number.
pub uninterp spec fn decimal_text_of(d: bigdecimal::BigDecimal) -> Seq<char>;

/// Trusted: `BigDecimal`'s `Display`, which `decimal_text_of` names.
#[verifier::external_body]
pub(crate) fn decimal_to_text(d: &BigDecimal) -> (r: String)
    ensures
        r@ == decimal_text_of(*d),
{
    d.to_string()
}

/// The integer part of `a / b`, rounded towards zero.
pub open spec fn truncated_quotient(a: int, b: int) -> int {
    if a >= 0 {
        a / b
    } else {
        -((-a) / b)
    }
}

/// Whether every byte is a decimal digit.
pub open spec fn all_decimal(digits: Seq<u8>) -> bool {
    forall|i: int| 0 <= i < digits.len() ==> #[trigger] digits[i] < 10
}

/// A magnitude with a sign.
pub open spec fn with_sign(negative: bool, magnitude: int) -> int {
    if negative {
        -magnitude
    } else {
        magnitude
    }
}

/// Trusted: `BigInt::from_radix_be` with radix 10. It reads the bytes as
/// decimal digits, most significant first, and gives the number with the
/// sign asked for. It answers `None` exactly where a byte is no decimal
/// digit.
#[verifier::external_body]
fn bigint_from_digits(negative: bool, digits: &[u8]) -> (r: Option<BigInt>)
    ensures
        match r {
            Some(b) => all_decimal(digits@) && bigint_value(b) == with_sign(
                negative,
                radix_value(as_ints(digits@), 10),
            ),
            None => !all_decimal(digits@),
        },
{
    let sign = if negative { Sign::Minus } else { Sign::Plus };
    BigInt::from_radix_be(sign, digits, 10)
}

/// Trusted: `BigDecimal::new`. The number has the digits and the scale
/// that it was given.
#[verifier::external_body]
fn decimal_new(digits: BigInt, scale: i64) -> (r: BigDecimal)
    ensures
        decimal_unscaled(r) == bigint_value(digits),
        decimal_scale(r) == scale,
{
    BigDecimal::new(digits, scale)
}

/// Trusted: the product of a `&BigDecimal` and an `i128`. The product is
/// exact: its digits are the number's digits times the factor, and its scale
/// is the number's.
#[verifier::external_body]
fn decimal_times(d: &BigDecimal, factor: i128) -> (r: BigDecimal)
    ensures
        decimal_unscaled(r) == decimal_unscaled(*d) * factor,
        decimal_scale(r) == decimal_scale(*d),
{
    d * factor
}

/// Trusted: `ToPrimitive::to_i128` on a `BigDecimal`. For a number whose
/// scale is not negative it is the integer part of the number, rounded
/// towards zero, where that fits into 128 bits, and `None` where it does not.
#[verifier::external_body]
fn decimal_to_i128(d: &BigDecimal) -> (r: Option<i128>)
    ensures
        decimal_scale(*d) >= 0 ==> r == {
            let whole = truncated_quotient(
                decimal_unscaled(*d),
                pow10(decimal_scale(*d) as nat) as int,
            );
            if i128::MIN <= whole <= i128::MAX {
                Some(whole as i128)
            } else {
                None
            }
        },
{
    d.to_i128()
}

/// The failure to read a decimal number from `raw`.
fn unreadable(raw: &[u8]) -> (r: Error)
    ensures
        r matches Error::FailedToParseBigDecmialFromPostgres { bytes } && bytes@ == raw@,
{
    Error::FailedToParseBigDecmialFromPostgres { bytes: slice_to_vec(raw) }
}

/// Every power of ten is positive.
pub proof fn lemma_pow10_positive(n: nat)
    ensures
        pow10(n) > 0,
    decreases n,
{
    if n > 0 {
        lemma_pow10_positive((n - 1) as nat);
    }
}

/// Powers of ten grow with the exponent.
pub proof fn lemma_pow10_monotonic(a: nat, b: nat)
    requires
        a <= b,
    ensures
        pow10(a) <= pow10(b),
    decreases b,
{
    if a < b {
        lemma_pow10_monotonic(a, (b - 1) as nat);
    }
}

/// Dividing a multiple by what it is a multiple of gives the number back,
/// whatever its sign.
proof fn lemma_scaled_back(number: int, divisor: int)
    requires
        divisor > 0,
    ensures
        truncated_quotient(number * divisor, divisor) == number,
{
    if number >= 0 {
        assert((number * divisor) / divisor == number) by (nonlinear_arith)
            requires
                divisor > 0,
        ;
        assert(number * divisor >= 0) by (nonlinear_arith)
            requires
                number >= 0,
                divisor > 0,
        ;
    } else {
        assert(-(number * divisor) == (-number) * divisor) by (nonlinear_arith);
        assert(((-number) * divisor) / divisor == -number) by (nonlinear_arith)
            requires
                divisor > 0,
        ;
        assert(number * divisor < 0) by (nonlinear_arith)
            requires
                number < 0,
                divisor > 0,
        ;
    }
}

/// Ten to the power of `n`, where that fits into 128 bits: up to the power
/// of 38.
pub fn power_of_ten(n: u16) -> (r: Option<i128>)
    ensures
        n <= 38 ==> r == Some(pow10(n as nat) as i128) && pow10(n as nat) <= i128::MAX,
        n > 38 ==> r is None,
{
    if n > 38 {
        return None;
    }
    proof {
        reveal_with_fuel(pow10, 39);
        assert(pow10(38) == 100000000000000000000000000000000000000);
    }
    let mut value: i128 = 1;
    let mut i: u16 = 0;
    while i < n
        invariant
            i <= n <= 38,
            value == pow10(i as nat),
            pow10(38) == 100000000000000000000000000000000000000,
        decreases n - i,
    {
        proof {
            lemma_pow10_monotonic((i + 1) as nat, 38);
        }
        value = value * 10;
        i += 1;
    }
    proof {
        lemma_pow10_monotonic(n as nat, 38);
    }
    Some(value)
}

/// A decimal number read from the bytes that a Postgres server sent.
pub struct BigDecimalFromSql {
    pub inner: BigDecimal,
    pub scale: u16,
}

/// The digits of a number without its decimal point, as one integer with
/// the number's sign.
pub open spec fn signed_magnitude(n: Numeric) -> int {
    with_sign(n.negative, n.magnitude as int)
}

impl BigDecimalFromSql {
    /// The number's own scale is the scale that came with it.
    pub open spec fn wf(&self) -> bool {
        decimal_scale(self.inner) == self.scale
    }

    /// Reads a decimal number. Bytes that are well formed give the number
    /// they stand for, with the scale they name. All other bytes fail, and
    /// the failure hands the bytes back.
    pub fn from_sql(raw: &[u8]) -> (r: Result<BigDecimalFromSql, Error>)
        ensures
            well_formed(raw@) ==> (r matches Ok(d) && d.wf() && d.scale == numeric_of(raw@).scale
                && decimal_unscaled(d.inner) == signed_magnitude(numeric_of(raw@))),
            !well_formed(raw@) ==> (r matches Err(
                Error::FailedToParseBigDecmialFromPostgres { bytes },
            ) && bytes@ == raw@),
    {
        let words = read_words(raw);
        if words.len() < 4 {
            return Err(unreadable(raw));
        }
        let count = words[0];
        let weight = words[1];
        let sign = words[2];
        let scale = words[3];
        assert(count == word_at(raw@, 0) && weight == word_at(raw@, 1) && sign == word_at(raw@, 2)
            && scale == word_at(raw@, 3));
        if words.len() - 4 < count as usize {
            return Err(unreadable(raw));
        }
        let mut i: usize = 0;
        while i < count as usize
            invariant
                i <= count,
                4 + count <= words@.len(),
                count == word_at(raw@, 0),
                forall|j: int| 0 <= j < words@.len() ==> #[trigger] words@[j] == word_at(raw@, j),
                forall|j: int| 0 <= j < i ==> #[trigger] word_at(raw@, 4 + j) < 10000,
            decreases count - i,
        {
            if words[4 + i] >= 10000 {
                assert(!(word_at(raw@, 4 + i) < 10000));
                return Err(unreadable(raw));
            }
            i += 1;
        }
        if sign != SIGN_PLUS && sign != SIGN_MINUS {
            return Err(unreadable(raw));
        }
        if weight >= count {
            return Err(unreadable(raw));
        }
        let right: u16 = count - weight - 1;
        if right > scale / 4 {
            return Err(unreadable(raw));
        }
        let zeros: u16 = scale - right * 4;
        let digits = decimal_digits(&words, count as usize, zeros as usize, Ghost(raw@));
        match bigint_from_digits(sign == SIGN_MINUS, digits.as_slice()) {
            Some(value) => Ok(BigDecimalFromSql { inner: decimal_new(value, scale as i64), scale }),
            None => Err(unreadable(raw)),
        }
    }

    /// The digits of the number without its decimal point, as a 128-bit
    /// integer: what a decimal column of this scale stores. `None` where the
    /// digits do not fit into 128 bits, and for a scale above 38, which no
    /// such column has.
    pub fn to_decimal_128(&self) -> (r: Option<i128>)
        requires
            self.wf(),
        ensures
            r == self.as_decimal_128(),
    {
        match power_of_ten(self.scale) {
            None => None,
            Some(factor) => {
                let product = decimal_times(&self.inner, factor);
                proof {
                    lemma_pow10_positive(self.scale as nat);
                    lemma_scaled_back(
                        decimal_unscaled(self.inner),
                        pow10(self.scale as nat) as int,
                    );
                }
                decimal_to_i128(&product)
            },
        }
    }

    /// Whether a column type is the one that this reads: the decimal type.
    pub fn accepts(ty: &PgType) -> (r: bool)
        ensures
            r == (*ty == PgType::Numeric),
    {
        match ty {
            PgType::Numeric => true,
            _ => false,
        }
    }

    /// What `to_decimal_128` gives for this number.
    pub open spec fn as_decimal_128(&self) -> Option<i128> {
        if self.scale <= 38 && i128::MIN <= decimal_unscaled(self.inner) <= i128::MAX {
            Some(decimal_unscaled(self.inner) as i128)
        } else {
            None
        }
    }

    /// The number as text.
    pub fn text(&self) -> (r: String)
        ensures
            r@ == decimal_text_of(self.inner),
    {
        decimal_to_text(&self.inner)
    }

    /// How many digits stand behind the decimal point.
    pub fn scale(&self) -> (r: u16)
        ensures
            r == self.scale,
    {
        self.scale
    }
}

} // verus!
