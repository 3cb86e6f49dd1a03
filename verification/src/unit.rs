//! The values of attributes that hold a quantity: numbers, offsets of time
//! and of loudness. A number is kept as the decimal digits it is written
//! with, so that what is written out is what was read, exactly.

use vstd::prelude::*;
use vstd::string::StringSliceAdditionalSpecFns;

use crate::util;
use crate::xml::EscapedDisplay;

verus! {

broadcast use vstd::string::group_string_axioms;

/// Whether a character is a decimal digit.
pub open spec fn is_digit(c: char) -> bool {
    48 <= c as u32 <= 57
}

/// The value of a decimal digit.
pub open spec fn digit_value(c: char) -> u8 {
    ((c as u32) - 48) as u8
}

/// Whether a text holds decimal digits only.
pub open spec fn all_digits(text: Seq<char>) -> bool {
    forall|i: int| 0 <= i < text.len() ==> is_digit(#[trigger] text[i])
}

/// The values of the digits of a text.
pub open spec fn digit_values(text: Seq<char>) -> Seq<u8> {
    Seq::new(text.len(), |i: int| digit_value(text[i]))
}

/// The characters that stand for a sequence of digits.
pub open spec fn digit_chars(digits: Seq<u8>) -> Seq<char> {
    Seq::new(digits.len(), |i: int| util::digit_char(digits[i] as nat))
}

/// Whether every item of a sequence is a decimal digit.
pub open spec fn is_digits(digits: Seq<u8>) -> bool {
    forall|i: int| 0 <= i < digits.len() ==> #[trigger] digits[i] < 10
}

/// A sequence of digits without the zeros it begins with.
pub open spec fn trim_front(digits: Seq<u8>) -> Seq<u8>
    decreases digits.len(),
{
    if digits.len() > 0 && digits[0] == 0 {
        trim_front(digits.drop_first())
    } else {
        digits
    }
}

/// A sequence of digits without the zeros it ends with.
pub open spec fn trim_back(digits: Seq<u8>) -> Seq<u8>
    decreases digits.len(),
{
    if digits.len() > 0 && digits.last() == 0 {
        trim_back(digits.drop_last())
    } else {
        digits
    }
}

/// How two sequences of digits stand to each other, read from the left:
/// negative where the first is less, zero where they are equal, positive
/// where it is more. A sequence is more than each of its proper prefixes.
pub open spec fn lexical(a: Seq<u8>, b: Seq<u8>) -> int
    decreases a.len(),
{
    if a.len() == 0 && b.len() == 0 {
        0
    } else if a.len() == 0 {
        -1
    } else if b.len() == 0 {
        1
    } else if a[0] < b[0] {
        -1
    } else if a[0] > b[0] {
        1
    } else {
        lexical(a.drop_first(), b.drop_first())
    }
}

/// Where the decimal point of a numeral stands: the index of its first `.`,
/// or its length if it has none.
pub open spec fn point_of(text: Seq<char>) -> int
    decreases text.len(),
{
    if text.len() == 0 || text[0] == '.' {
        0
    } else {
        1 + point_of(text.drop_first())
    }
}

/// A numeral without its sign.
pub open spec fn unsigned(text: Seq<char>) -> Seq<char> {
    if text.len() > 0 && (text[0] == '+' || text[0] == '-') {
        text.drop_first()
    } else {
        text
    }
}

/// What follows the decimal point of an unsigned numeral.
pub open spec fn after_point(body: Seq<char>) -> Seq<char> {
    if point_of(body) < body.len() {
        body.skip(point_of(body) + 1)
    } else {
        Seq::empty()
    }
}

/// The mathematical content of a [`Decimal`]: a sign and the digits before
/// and after the decimal point, most significant first.
pub struct DecimalView {
    /// Whether the number carries a minus sign. Zero may carry one.
    pub negative: bool,
    /// The digits before the point; none stands for zero.
    pub whole: Seq<u8>,
    /// The digits after the point.
    pub frac: Seq<u8>,
}

impl DecimalView {
    /// Each number has one representation: no zero leads the digits before
    /// the point, none ends those after it.
    pub open spec fn well_formed(self) -> bool {
        &&& is_digits(self.whole)
        &&& is_digits(self.frac)
        &&& self.whole.len() > 0 ==> self.whole[0] != 0
        &&& self.frac.len() > 0 ==> self.frac.last() != 0
    }

    /// Zero, without a sign.
    pub open spec fn zero() -> DecimalView {
        DecimalView { negative: false, whole: Seq::empty(), frac: Seq::empty() }
    }

    /// The number without its sign, in decimal notation: at least one digit
    /// before the point, and a point only where digits follow it.
    pub open spec fn magnitude_text(self) -> Seq<char> {
        let whole = if self.whole.len() == 0 {
            seq!['0']
        } else {
            digit_chars(self.whole)
        };
        let frac = if self.frac.len() == 0 {
            Seq::empty()
        } else {
            seq!['.'] + digit_chars(self.frac)
        };
        whole + frac
    }

    /// The number with its sign, `+` or `-`, always written.
    pub open spec fn signed_text(self) -> Seq<char> {
        seq![if self.negative { '-' } else { '+' }] + self.magnitude_text()
    }

    /// The number with a sign only where it is negative.
    pub open spec fn plain_text(self) -> Seq<char> {
        if self.negative {
            seq!['-'] + self.magnitude_text()
        } else {
            self.magnitude_text()
        }
    }

    /// Ten times the number: the point moves one place to the right.
    pub open spec fn times_ten(self) -> DecimalView {
        let digit = if self.frac.len() == 0 {
            0u8
        } else {
            self.frac[0]
        };
        DecimalView {
            negative: self.negative,
            whole: if self.whole.len() == 0 && digit == 0 {
                Seq::empty()
            } else {
                self.whole.push(digit)
            },
            frac: if self.frac.len() == 0 {
                Seq::empty()
            } else {
                self.frac.drop_first()
            },
        }
    }

    /// The number times ten to the power of `places`.
    pub open spec fn shifted(self, places: nat) -> DecimalView
        decreases places,
    {
        if places == 0 {
            self
        } else {
            self.times_ten().shifted((places - 1) as nat)
        }
    }

    /// Whether the number is zero, with or without a sign.
    pub open spec fn is_zero(self) -> bool {
        self.whole.len() == 0 && self.frac.len() == 0
    }

    /// How the number without its sign stands to another: negative where it
    /// is less, zero where they are equal, positive where it is more. More
    /// digits before the point are more; else the first digit that differs
    /// decides.
    pub open spec fn magnitude_order(self, other: DecimalView) -> int {
        if self.whole.len() != other.whole.len() {
            if self.whole.len() < other.whole.len() {
                -1
            } else {
                1
            }
        } else if lexical(self.whole, other.whole) != 0 {
            lexical(self.whole, other.whole)
        } else {
            lexical(self.frac, other.frac)
        }
    }

    /// Whether the number is less than another. The two zeros are equal.
    pub open spec fn less_than(self, other: DecimalView) -> bool {
        if self.is_zero() && other.is_zero() {
            false
        } else if self.negative != other.negative {
            self.negative
        } else if self.negative {
            other.magnitude_order(self) < 0
        } else {
            self.magnitude_order(other) < 0
        }
    }

    /// The number, or the nearer bound where it lies outside the bounds.
    pub open spec fn clamp(self, low: DecimalView, high: DecimalView) -> DecimalView {
        if self.less_than(low) {
            low
        } else if high.less_than(self) {
            high
        } else {
            self
        }
    }

    /// The number, or zero where it is negative.
    pub open spec fn or_zero(self) -> DecimalView {
        if self.negative {
            DecimalView::zero()
        } else {
            self
        }
    }
}

/// The number that a numeral stands for: an optional sign, digits, and
/// optionally a point and more digits, with a digit on at least one side of
/// the point. Anything else is no numeral.
pub open spec fn parse_decimal(text: Seq<char>) -> Option<DecimalView> {
    let body = unsigned(text);
    let whole = body.take(point_of(body));
    let frac = after_point(body);
    if all_digits(whole) && all_digits(frac) && whole.len() + frac.len() > 0 {
        Some(
            DecimalView {
                negative: text.len() > 0 && text[0] == '-',
                whole: trim_front(digit_values(whole)),
                frac: trim_back(digit_values(frac)),
            },
        )
    } else {
        None
    }
}

/// The point of a numeral stands at `at` if no `.` precedes `at` and one
/// stands there, or the numeral ends there.
pub proof fn lemma_point_of(text: Seq<char>, at: int)
    requires
        0 <= at <= text.len(),
        forall|i: int| 0 <= i < at ==> text[i] != '.',
        at < text.len() ==> text[at] == '.',
    ensures
        point_of(text) == at,
    decreases text.len(),
{
    if at > 0 {
        lemma_point_of(text.drop_first(), at - 1);
    }
}

/// The point of a numeral stands within it, and no `.` precedes it.
pub proof fn lemma_point_of_bounds(text: Seq<char>)
    ensures
        0 <= point_of(text) <= text.len(),
        forall|i: int| 0 <= i < point_of(text) ==> text[i] != '.',
        point_of(text) < text.len() ==> text[point_of(text)] == '.',
    decreases text.len(),
{
    if text.len() > 0 && text[0] != '.' {
        lemma_point_of_bounds(text.drop_first());
        assert forall|i: int| 0 <= i < point_of(text) implies text[i] != '.' by {
            if i > 0 {
                assert(text[i] == text.drop_first()[i - 1]);
            }
        }
    }
}

/// Trimming keeps digits digits, and nothing it returns begins with a zero.
pub proof fn lemma_trim_front(digits: Seq<u8>)
    ensures
        is_digits(digits) ==> is_digits(trim_front(digits)),
        trim_front(digits).len() > 0 ==> trim_front(digits)[0] != 0,
        trim_front(digits).len() <= digits.len(),
    decreases digits.len(),
{
    if digits.len() > 0 && digits[0] == 0 {
        lemma_trim_front(digits.drop_first());
    }
}

/// Trimming keeps digits digits, and nothing it returns ends with a zero.
pub proof fn lemma_trim_back(digits: Seq<u8>)
    ensures
        is_digits(digits) ==> is_digits(trim_back(digits)),
        trim_back(digits).len() > 0 ==> trim_back(digits).last() != 0,
        trim_back(digits).len() <= digits.len(),
    decreases digits.len(),
{
    if digits.len() > 0 && digits.last() == 0 {
        lemma_trim_back(digits.drop_last());
    }
}

/// What one more digit at the end does to digits trimmed at the front.
pub proof fn lemma_trim_front_push(digits: Seq<u8>, digit: u8)
    ensures
        trim_front(digits.push(digit)) == if trim_front(digits).len() == 0 && digit == 0 {
            Seq::<u8>::empty()
        } else {
            trim_front(digits).push(digit)
        },
    decreases digits.len(),
{
    if digits.len() == 0 {
        assert(digits.push(digit).drop_first() =~= Seq::<u8>::empty());
        assert(trim_front(Seq::<u8>::empty()) =~= Seq::<u8>::empty());
        assert(trim_front(digits) =~= Seq::<u8>::empty());
        if digit != 0 {
            assert(trim_front(digits.push(digit)) =~= trim_front(digits).push(digit));
        }
    } else if digits[0] == 0 {
        lemma_trim_front_push(digits.drop_first(), digit);
        assert(digits.push(digit).drop_first() =~= digits.drop_first().push(digit));
    } else {
        assert(digits.push(digit)[0] == digits[0]);
    }
}

/// Every number that a numeral stands for is well formed.
pub proof fn lemma_parse_decimal_well_formed(text: Seq<char>)
    ensures
        parse_decimal(text) is Some ==> parse_decimal(text)->0.well_formed(),
{
    let body = unsigned(text);
    let whole = body.take(point_of(body));
    let frac = after_point(body);
    if parse_decimal(text) is Some {
        lemma_trim_front(digit_values(whole));
        lemma_trim_back(digit_values(frac));
        assert(is_digits(digit_values(whole))) by {
            assert forall|i: int| 0 <= i < whole.len() implies #[trigger] digit_values(whole)[i] < 10 by {
                assert(is_digit(whole[i]));
            }
        }
        assert(is_digits(digit_values(frac))) by {
            assert forall|i: int| 0 <= i < frac.len() implies #[trigger] digit_values(frac)[i] < 10 by {
                assert(is_digit(frac[i]));
            }
        }
    }
}

/// A signed decimal number, kept exactly as the digits it is written with.
#[derive(Debug, PartialEq, Eq)]
pub struct Decimal {
    negative: bool,
    whole: Vec<u8>,
    frac: Vec<u8>,
}

/// Appends the characters of a sequence of digits.
fn write_digits(writer: &mut String, digits: &Vec<u8>)
    requires
        is_digits(digits@),
    ensures
        final(writer)@ == old(writer)@ + digit_chars(digits@),
{
    let ghost start = writer@;
    let mut i: usize = 0;
    assert(start + digit_chars(digits@.take(0)) =~= start);
    while i < digits.len()
        invariant
            i <= digits.len(),
            is_digits(digits@),
            writer@ == start + digit_chars(digits@.take(i as int)),
        decreases digits.len() - i,
    {
        let digit = digits[i];
        assert(digits@[i as int] < 10);
        writer.push((48u8 + digit) as char);
        assert(digit_chars(digits@.take(i + 1)) =~= digit_chars(digits@.take(i as int)).push(
            util::digit_char(digit as nat),
        ));
        assert(writer@ =~= start + digit_chars(digits@.take(i + 1)));
        i += 1;
    }
    assert(digits@.take(digits@.len() as int) =~= digits@);
}

/// How two sequences of digits stand to each other, read from the left.
fn digits_order(a: &Vec<u8>, b: &Vec<u8>) -> (r: i8)
    ensures
        r as int == lexical(a@, b@),
{
    let mut i: usize = 0;
    assert(a@.skip(0) =~= a@);
    assert(b@.skip(0) =~= b@);
    while i < a.len() && i < b.len()
        invariant
            i <= a.len(),
            i <= b.len(),
            lexical(a@, b@) == lexical(a@.skip(i as int), b@.skip(i as int)),
        decreases a.len() - i,
    {
        assert(a@.skip(i as int).drop_first() =~= a@.skip(i + 1));
        assert(b@.skip(i as int).drop_first() =~= b@.skip(i + 1));
        if a[i] < b[i] {
            return -1;
        }
        if a[i] > b[i] {
            return 1;
        }
        i += 1;
    }
    if i < b.len() {
        -1
    } else if i < a.len() {
        1
    } else {
        0
    }
}

/// Whether every item of a sequence is a decimal digit.
fn are_digits(digits: &Vec<u8>) -> (r: bool)
    ensures
        r == is_digits(digits@),
{
    let mut i: usize = 0;
    while i < digits.len()
        invariant
            i <= digits.len(),
            forall|j: int| 0 <= j < i ==> #[trigger] digits@[j] < 10,
        decreases digits.len() - i,
    {
        if digits[i] >= 10 {
            return false;
        }
        i += 1;
    }
    true
}

/// A copy of a sequence of digits.
fn copy_digits(digits: &Vec<u8>) -> (r: Vec<u8>)
    ensures
        r@ == digits@,
{
    let mut out: Vec<u8> = Vec::new();
    let mut i: usize = 0;
    while i < digits.len()
        invariant
            i <= digits.len(),
            out@ == digits@.take(i as int),
        decreases digits.len() - i,
    {
        out.push(digits[i]);
        assert(digits@.take(i + 1) =~= digits@.take(i as int).push(digits@[i as int]));
        i += 1;
    }
    assert(digits@.take(digits@.len() as int) =~= digits@);
    out
}

impl Decimal {
    #[verifier::type_invariant]
    spec fn is_canonical(self) -> bool {
        self@.well_formed()
    }

    pub closed spec fn view(&self) -> DecimalView {
        DecimalView { negative: self.negative, whole: self.whole@, frac: self.frac@ }
    }

    /// Zero, without a sign.
    pub fn zero() -> (r: Self)
        ensures
            r@ == DecimalView::zero(),
    {
        Decimal { negative: false, whole: Vec::new(), frac: Vec::new() }
    }

    /// The number with the given sign and digits, if they are the one
    /// representation of a number: digits only, no zero leading those before
    /// the point, none ending those after it.
    pub fn from_parts(negative: bool, whole: Vec<u8>, frac: Vec<u8>) -> (r: Option<Self>)
        ensures
            r is Some == (DecimalView { negative, whole: whole@, frac: frac@ }).well_formed(),
            r is Some ==> r->0@ == (DecimalView { negative, whole: whole@, frac: frac@ }),
    {
        if !are_digits(&whole) || !are_digits(&frac) {
            return None;
        }
        if whole.len() > 0 && whole[0] == 0 {
            return None;
        }
        if frac.len() > 0 && frac[frac.len() - 1] == 0 {
            return None;
        }
        Some(Decimal { negative, whole, frac })
    }

    /// One.
    pub fn one() -> (r: Self)
        ensures
            r@ == (DecimalView { negative: false, whole: seq![1u8], frac: Seq::empty() }),
    {
        let mut whole: Vec<u8> = Vec::new();
        whole.push(1);
        assert(whole@ =~= seq![1u8]);
        Decimal { negative: false, whole, frac: Vec::new() }
    }

    /// A hundredth.
    pub fn hundredth() -> (r: Self)
        ensures
            r@ == (DecimalView { negative: false, whole: Seq::empty(), frac: seq![0u8, 1u8] }),
    {
        let mut frac: Vec<u8> = Vec::new();
        frac.push(0);
        frac.push(1);
        assert(frac@ =~= seq![0u8, 1u8]);
        Decimal { negative: false, whole: Vec::new(), frac }
    }

    /// Two.
    pub fn two() -> (r: Self)
        ensures
            r@ == (DecimalView { negative: false, whole: seq![2u8], frac: Seq::empty() }),
    {
        let mut whole: Vec<u8> = Vec::new();
        whole.push(2);
        assert(whole@ =~= seq![2u8]);
        Decimal { negative: false, whole, frac: Vec::new() }
    }

    /// Whether the number is zero, with or without a sign.
    pub fn is_zero(&self) -> (r: bool)
        ensures
            r == self@.is_zero(),
    {
        self.whole.len() == 0 && self.frac.len() == 0
    }

    /// How the number without its sign stands to another.
    fn magnitude_order(&self, other: &Decimal) -> (r: i8)
        ensures
            r as int == self@.magnitude_order(other@),
    {
        if self.whole.len() != other.whole.len() {
            if self.whole.len() < other.whole.len() {
                -1
            } else {
                1
            }
        } else {
            let whole = digits_order(&self.whole, &other.whole);
            if whole != 0 {
                whole
            } else {
                digits_order(&self.frac, &other.frac)
            }
        }
    }

    /// Whether the number is less than another.
    pub fn less_than(&self, other: &Decimal) -> (r: bool)
        ensures
            r == self@.less_than(other@),
    {
        if self.is_zero() && other.is_zero() {
            false
        } else if self.negative != other.negative {
            self.negative
        } else if self.negative {
            other.magnitude_order(self) < 0
        } else {
            self.magnitude_order(other) < 0
        }
    }

    /// The number, or the nearer bound where it lies outside the bounds.
    pub fn clamp(&self, low: &Decimal, high: &Decimal) -> (r: Self)
        ensures
            r@ == self@.clamp(low@, high@),
    {
        if self.less_than(low) {
            low.clone()
        } else if high.less_than(self) {
            high.clone()
        } else {
            self.clone()
        }
    }

    /// Recalls that the number is in its one representation. Does nothing
    /// when run.
    pub fn assert_well_formed(&self)
        ensures
            self@.well_formed(),
    {
        proof {
            use_type_invariant(self);
        }
    }

    /// Whether the number carries a minus sign.
    pub fn is_negative(&self) -> (r: bool)
        ensures
            r == self@.negative,
    {
        self.negative
    }

    /// The number that the first `end` characters of `chars` stand for, if
    /// they are a numeral.
    pub fn parse_chars(chars: &Vec<char>, end: usize) -> (r: Option<Self>)
        requires
            end <= chars.len(),
        ensures
            r is Some == parse_decimal(chars@.take(end as int)) is Some,
            r is Some ==> r->0@ == parse_decimal(chars@.take(end as int))->0,
    {
        let ghost text = chars@.take(end as int);
        let ghost body = unsigned(text);
        let mut negative = false;
        let mut begin: usize = 0;
        if end > 0 {
            if chars[0] == '-' {
                negative = true;
                begin = 1;
            } else if chars[0] == '+' {
                begin = 1;
            }
        }
        assert(body =~= chars@.subrange(begin as int, end as int));
        let mut whole: Vec<u8> = Vec::new();
        let mut i: usize = begin;
        assert(body.take(0) =~= Seq::<char>::empty());
        assert(digit_values(body.take(0)) =~= Seq::<u8>::empty());
        while i < end && chars[i] != '.'
            invariant
                begin <= i <= end <= chars.len(),
                text == chars@.take(end as int),
                body == unsigned(text),
                body == chars@.subrange(begin as int, end as int),
                forall|k: int| 0 <= k < i - begin ==> body[k] != '.' && is_digit(#[trigger] body[k]),
                whole@ == trim_front(digit_values(body.take(i - begin))),
            decreases end - i,
        {
            let c = chars[i];
            let v = c as u32;
            if v < 48 || v > 57 {
                proof {
                    lemma_point_of_bounds(body);
                    let at = i - begin;
                    if point_of(body) <= at {
                        if point_of(body) < at {
                            assert(body[point_of(body)] != '.');
                        }
                    }
                    assert(point_of(body) > at);
                    assert(body.take(point_of(body))[at] == body[at]);
                    assert(!is_digit(body[at]));
                }
                return None;
            }
            let digit = (v - 48) as u8;
            proof {
                let done = body.take(i - begin);
                lemma_trim_front_push(digit_values(done), digit);
                assert(digit_values(body.take(i - begin + 1)) =~= digit_values(done).push(digit));
            }
            if whole.len() > 0 || digit != 0 {
                whole.push(digit);
            }
            i += 1;
        }
        let point = i;
        proof {
            lemma_point_of(body, point - begin);
        }
        let ghost whole_text = body.take(point - begin);
        let ghost frac_text = after_point(body);
        assert(all_digits(whole_text)) by {
            assert forall|k: int| 0 <= k < whole_text.len() implies is_digit(#[trigger] whole_text[k]) by {
                assert(whole_text[k] == body[k]);
            }
        }
        let mut frac: Vec<u8> = Vec::new();
        let mut frac_chars: usize = 0;
        if i < end {
            i += 1;
            assert(frac_text =~= chars@.subrange(i as int, end as int));
            assert(digit_values(frac_text.take(0)) =~= Seq::<u8>::empty());
            while i < end
                invariant
                    point < i <= end <= chars.len(),
                    text == chars@.take(end as int),
                    body == unsigned(text),
                    frac_text == after_point(body),
                    frac_text == chars@.subrange(point + 1, end as int),
                    frac_chars == i - point - 1,
                    forall|k: int| 0 <= k < i - point - 1 ==> is_digit(#[trigger] frac_text[k]),
                    frac@ == digit_values(frac_text.take(i - point - 1)),
                decreases end - i,
            {
                let c = chars[i];
                let v = c as u32;
                if v < 48 || v > 57 {
                    proof {
                        assert(!is_digit(frac_text[i - point - 1]));
                    }
                    return None;
                }
                let digit = (v - 48) as u8;
                proof {
                    let done = frac_text.take(i - point - 1);
                    assert(digit_values(frac_text.take(i - point)) =~= digit_values(done).push(digit));
                }
                frac.push(digit);
                frac_chars += 1;
                i += 1;
            }
            assert(frac_text.take(frac_text.len() as int) =~= frac_text);
        } else {
            assert(frac_text =~= Seq::<char>::empty());
            assert(digit_values(frac_text) =~= Seq::<u8>::empty());
        }
        assert(frac@ == digit_values(frac_text));
        assert(frac_chars == frac_text.len());
        if point - begin == 0 && frac_chars == 0 {
            return None;
        }
        let ghost all = frac@;
        while frac.len() > 0 && frac[frac.len() - 1] == 0
            invariant
                trim_back(frac@) == trim_back(all),
            decreases frac.len(),
        {
            let ghost before = frac@;
            frac.pop();
            assert(frac@ =~= before.drop_last());
        }
        proof {
            lemma_parse_decimal_well_formed(text);
            assert(text.len() > 0 ==> text[0] == chars@[0]);
        }
        Some(Decimal { negative, whole, frac })
    }

    /// The number that a numeral stands for, if the text is one.
    pub fn parse(s: &str) -> (r: Option<Self>)
        ensures
            r is Some == parse_decimal(s@) is Some,
            r is Some ==> r->0@ == parse_decimal(s@)->0,
    {
        let chars = util::chars_of(s);
        assert(chars@.take(chars@.len() as int) =~= chars@);
        Decimal::parse_chars(&chars, chars.len())
    }

    /// Appends the number with its sign, `+` or `-`.
    pub fn write_signed(&self, writer: &mut String)
        ensures
            final(writer)@ == old(writer)@ + self@.signed_text(),
    {
        proof {
            use_type_invariant(self);
        }
        writer.push(if self.negative { '-' } else { '+' });
        self.write_magnitude(writer);
        assert(writer@ =~= old(writer)@ + self@.signed_text());
    }

    /// Appends the number, with a sign only where it is negative.
    pub fn write_plain(&self, writer: &mut String)
        ensures
            final(writer)@ == old(writer)@ + self@.plain_text(),
    {
        if self.negative {
            writer.push('-');
        }
        self.write_magnitude(writer);
        assert(writer@ =~= old(writer)@ + self@.plain_text());
    }

    fn write_magnitude(&self, writer: &mut String)
        ensures
            final(writer)@ == old(writer)@ + self@.magnitude_text(),
    {
        proof {
            use_type_invariant(self);
        }
        if self.whole.len() == 0 {
            writer.push('0');
        } else {
            write_digits(writer, &self.whole);
        }
        if self.frac.len() > 0 {
            writer.push('.');
            write_digits(writer, &self.frac);
        }
        assert(writer@ =~= old(writer)@ + self@.magnitude_text());
    }

    /// The number in decimal notation, with a sign only where it is negative.
    pub fn to_string(&self) -> (r: String)
        ensures
            r@ == self@.plain_text(),
    {
        let mut out = String::new();
        self.write_plain(&mut out);
        assert(Seq::<char>::empty() + self@.plain_text() =~= self@.plain_text());
        out
    }

    /// Ten times the number.
    pub fn times_ten(&self) -> (r: Self)
        ensures
            r@ == self@.times_ten(),
    {
        proof {
            use_type_invariant(self);
        }
        let mut whole = copy_digits(&self.whole);
        let mut frac = copy_digits(&self.frac);
        let digit = if frac.len() == 0 {
            0u8
        } else {
            frac.remove(0)
        };
        assert(frac@ =~= if self.frac@.len() == 0 {
            Seq::<u8>::empty()
        } else {
            self.frac@.drop_first()
        });
        if whole.len() > 0 || digit != 0 {
            whole.push(digit);
        }
        assert(whole@ =~= self@.times_ten().whole);
        Decimal { negative: self.negative, whole, frac }
    }

    /// The number times ten to the power of `places`.
    pub fn shifted(&self, places: u8) -> (r: Self)
        ensures
            r@ == self@.shifted(places as nat),
    {
        let mut out = self.clone();
        let mut done: u8 = 0;
        while done < places
            invariant
                done <= places,
                out@.shifted((places - done) as nat) == self@.shifted(places as nat),
            decreases places - done,
        {
            out = out.times_ten();
            done += 1;
        }
        out
    }

    /// The number, or zero where it is negative.
    pub fn or_zero(&self) -> (r: Self)
        ensures
            r@ == self@.or_zero(),
    {
        if self.negative {
            Decimal::zero()
        } else {
            self.clone()
        }
    }
}

impl Clone for Decimal {
    fn clone(&self) -> (r: Self)
        ensures
            r@ == self@,
    {
        proof {
            use_type_invariant(self);
        }
        Decimal { negative: self.negative, whole: copy_digits(&self.whole), frac: copy_digits(&self.frac) }
    }
}

/// A number is written with digits, a point and a sign, none of which has a
/// meaning in XML.
pub proof fn lemma_decimal_text_is_inert(number: DecimalView)
    requires
        number.well_formed(),
    ensures
        util::is_inert(number.magnitude_text()),
        util::is_inert(number.signed_text()),
        util::is_inert(number.plain_text()),
{
    assert forall|i: int| 0 <= i < number.whole.len() implies is_digit(#[trigger] digit_chars(number.whole)[i]) by {
        assert(number.whole[i] < 10);
    }
    assert forall|i: int| 0 <= i < number.frac.len() implies is_digit(#[trigger] digit_chars(number.frac)[i]) by {
        assert(number.frac[i] < 10);
    }
    let text = number.magnitude_text();
    assert forall|i: int| 0 <= i < text.len() implies is_digit(#[trigger] text[i]) || text[i] == '.' by {
        if number.whole.len() == 0 {
            if i > 0 {
                assert(text[i] == (seq!['.'] + digit_chars(number.frac))[i - 1]);
                if i > 1 {
                    assert(text[i] == digit_chars(number.frac)[i - 2]);
                }
            }
        } else {
            if i >= number.whole.len() {
                let k = i - number.whole.len();
                assert(text[i] == (seq!['.'] + digit_chars(number.frac))[k]);
                if k > 0 {
                    assert(text[i] == digit_chars(number.frac)[k - 1]);
                }
            } else {
                assert(text[i] == digit_chars(number.whole)[i]);
            }
        }
    }
    assert(util::is_inert(text));
    assert forall|i: int| 0 <= i < number.signed_text().len() implies {
        let c = #[trigger] number.signed_text()[i];
        c != '"' && c != '\'' && c != '<' && c != '>'
    } by {
        if i > 0 {
            assert(number.signed_text()[i] == text[i - 1]);
        }
    }
    assert forall|i: int| 0 <= i < number.plain_text().len() implies {
        let c = #[trigger] number.plain_text()[i];
        c != '"' && c != '\'' && c != '<' && c != '>'
    } by {
        if number.negative {
            if i > 0 {
                assert(number.plain_text()[i] == text[i - 1]);
            }
        }
    }
}

/// A digit is written as the character that is read as that digit.
pub proof fn lemma_digit_round_trip(digits: Seq<u8>)
    requires
        is_digits(digits),
    ensures
        all_digits(digit_chars(digits)),
        digit_values(digit_chars(digits)) == digits,
        forall|i: int| 0 <= i < digits.len() ==> #[trigger] digit_chars(digits)[i] != '.',
{
    assert forall|i: int| 0 <= i < digits.len() implies is_digit(#[trigger] digit_chars(digits)[i])
        && digit_chars(digits)[i] != '.' && digit_value(digit_chars(digits)[i]) == digits[i] by {
        assert(digits[i] < 10);
    }
    assert(digit_values(digit_chars(digits)) =~= digits);
}

/// A number in decimal notation, without its sign, reads back as the number.
proof fn lemma_parse_magnitude(number: DecimalView)
    requires
        number.well_formed(),
    ensures
        ({
            let text = number.magnitude_text();
            &&& text.len() > 0
            &&& is_digit(text[0])
            &&& all_digits(text.take(point_of(text)))
            &&& all_digits(after_point(text))
            &&& text.take(point_of(text)).len() > 0
            &&& trim_front(digit_values(text.take(point_of(text)))) == number.whole
            &&& trim_back(digit_values(after_point(text))) == number.frac
        }),
{
    let text = number.magnitude_text();
    let whole = if number.whole.len() == 0 {
        seq!['0']
    } else {
        digit_chars(number.whole)
    };
    let frac = if number.frac.len() == 0 {
        Seq::<char>::empty()
    } else {
        seq!['.'] + digit_chars(number.frac)
    };
    lemma_digit_round_trip(number.whole);
    lemma_digit_round_trip(number.frac);
    assert(text == whole + frac);
    assert forall|i: int| 0 <= i < whole.len() implies text[i] != '.' && is_digit(text[i]) by {
        assert(text[i] == whole[i]);
        if number.whole.len() > 0 {
            assert(is_digit(digit_chars(number.whole)[i]));
        }
    }
    lemma_point_of(text, whole.len() as int);
    assert(text.take(whole.len() as int) =~= whole);
    if number.frac.len() == 0 {
        assert(after_point(text) =~= Seq::<char>::empty());
        assert(digit_values(after_point(text)) =~= Seq::<u8>::empty());
    } else {
        assert(after_point(text) =~= digit_chars(number.frac));
    }
    if number.whole.len() == 0 {
        assert(digit_values(whole) =~= seq![0u8]);
        assert(seq![0u8].drop_first() =~= Seq::<u8>::empty());
        assert(trim_front(seq![0u8]) == trim_front(Seq::<u8>::empty()));
        assert(trim_front(digit_values(whole)) =~= number.whole);
    }
}

/// What is written of a number reads back as the number, whether the sign
/// is always written or only where it is a minus.
pub proof fn lemma_parse_decimal_text(number: DecimalView)
    requires
        number.well_formed(),
    ensures
        parse_decimal(number.signed_text()) == Some(number),
        parse_decimal(number.plain_text()) == Some(number),
{
    lemma_parse_magnitude(number);
    let magnitude = number.magnitude_text();
    let signed = number.signed_text();
    assert(signed.drop_first() =~= magnitude);
    assert(unsigned(signed) == magnitude);
    let plain = number.plain_text();
    if number.negative {
        assert(plain.drop_first() =~= magnitude);
        assert(unsigned(plain) == magnitude);
    } else {
        assert(plain[0] != '+' && plain[0] != '-');
        assert(unsigned(plain) == magnitude);
    }
}

/// A number is written with characters of one byte each.
pub proof fn lemma_decimal_text_length(number: DecimalView, unit: Seq<char>)
    requires
        number.well_formed(),
        vstd::utf8::is_ascii_chars(unit),
    ensures
        byte_length(number.signed_text() + unit) == (number.signed_text() + unit).len(),
{
    let text = number.signed_text() + unit;
    lemma_digit_round_trip(number.whole);
    lemma_digit_round_trip(number.frac);
    let magnitude = number.magnitude_text();
    assert forall|i: int| 0 <= i < magnitude.len() implies is_digit(#[trigger] magnitude[i]) || magnitude[i]
        == '.' by {
        if number.whole.len() == 0 {
            if i > 0 {
                assert(magnitude[i] == (seq!['.'] + digit_chars(number.frac))[i - 1]);
                if i > 1 {
                    assert(magnitude[i] == digit_chars(number.frac)[i - 2]);
                }
            }
        } else {
            if i >= number.whole.len() {
                let k = i - number.whole.len();
                assert(magnitude[i] == (seq!['.'] + digit_chars(number.frac))[k]);
                if k > 0 {
                    assert(magnitude[i] == digit_chars(number.frac)[k - 1]);
                }
            } else {
                assert(magnitude[i] == digit_chars(number.whole)[i]);
            }
        }
    }
    assert forall|i: int| 0 <= i < text.len() implies '\0' <= #[trigger] text[i] <= '\u{7f}' by {
        if i == 0 {
        } else if i < number.signed_text().len() {
            assert(text[i] == magnitude[i - 1]);
        } else {
            assert(text[i] == unit[i - number.signed_text().len()]);
        }
    }
    vstd::utf8::is_ascii_chars_encode_utf8(text);
}

/// An offset of time that is written out and read again is the same offset:
/// the text of every offset that is not negative stands for that offset.
pub proof fn lemma_time_round_trip(millis: DecimalView)
    requires
        millis.well_formed(),
        !millis.negative,
    ensures
        parse_time(TimeDesignation::text_of(millis)) == Ok::<DecimalView, TimeDesignationError>(millis),
{
    let text = TimeDesignation::text_of(millis);
    lemma_decimal_text_length(millis, seq!['m', 's']);
    lemma_parse_decimal_text(millis);
    assert(text.take(text.len() - 2) =~= millis.signed_text());
    assert(ends_in_millis(text));
}

/// An offset of loudness that is written out and read again is the same
/// offset.
pub proof fn lemma_decibels_round_trip(value: DecimalView)
    requires
        value.well_formed(),
    ensures
        parse_decibels(Decibels::text_of(value)) == Ok::<DecimalView, DecibelsError>(value),
{
    let text = Decibels::text_of(value);
    lemma_decimal_text_length(value, seq!['d', 'B']);
    lemma_parse_decimal_text(value);
    assert(text.take(text.len() - 2) =~= value.signed_text());
    assert(ends_in_decibels(text));
}

/// No text that begins with a minus sign is an offset of time.
pub proof fn lemma_negative_time_is_refused(text: Seq<char>)
    requires
        text.len() > 0,
        text[0] == '-',
    ensures
        parse_time(text) is Err,
{
    if byte_length(text) >= 2 {
        if ends_in_millis(text) {
            let number = text.take(text.len() - 2);
            assert(text.len() > 2);
            assert(number[0] == '-');
        } else if ends_in_seconds(text) {
            let number = text.take(text.len() - 1);
            assert(text.len() > 1);
            assert(number[0] == '-');
        }
    }
}

/// Why a text is no offset of time.
#[derive(Debug, Clone, Copy, PartialEq, Eq, Structural)]
pub enum TimeDesignationError {
    /// The text does not end in `ms`, nor in `s` after a digit or a point.
    BadUnit,
    /// The text is too short to hold a number and a unit.
    BadLength,
    /// The number is negative.
    Negative,
    /// What precedes the unit is no number.
    ParseFloat,
}

impl TimeDesignationError {
    /// What went wrong, in words.
    pub open spec fn text(self) -> Seq<char> {
        match self {
            TimeDesignationError::BadUnit => "time designation has invalid unit (allowed are ms, s)"@,
            TimeDesignationError::BadLength => "string is too short to be a valid time designation"@,
            TimeDesignationError::Negative => "time designations cannot be negative"@,
            TimeDesignationError::ParseFloat => "couldn't parse number"@,
        }
    }

    /// What went wrong, in words.
    pub fn message(&self) -> (r: &'static str)
        ensures
            r@ == self.text(),
    {
        match self {
            TimeDesignationError::BadUnit => "time designation has invalid unit (allowed are ms, s)",
            TimeDesignationError::BadLength => "string is too short to be a valid time designation",
            TimeDesignationError::Negative => "time designations cannot be negative",
            TimeDesignationError::ParseFloat => "couldn't parse number",
        }
    }
}

/// How many bytes the UTF-8 form of a text takes.
pub open spec fn byte_length(text: Seq<char>) -> nat {
    vstd::utf8::encode_utf8(text).len()
}

/// Whether a text ends in the unit `ms`.
pub open spec fn ends_in_millis(text: Seq<char>) -> bool {
    text.len() >= 2 && text[text.len() - 2] == 'm' && text[text.len() - 1] == 's'
}

/// Whether a text ends in the unit `s`: the character at the position of the
/// last byte but one must be a digit or a point.
pub open spec fn ends_in_seconds(text: Seq<char>) -> bool {
    let before = byte_length(text) - 2;
    &&& text.len() >= 1
    &&& text[text.len() - 1] == 's'
    &&& 0 <= before < text.len()
    &&& (is_digit(text[before]) || text[before] == '.')
}

/// The offset that a number of the given unit stands for, in milliseconds;
/// `places` is 0 for milliseconds and 3 for seconds.
pub open spec fn time_of(number: Seq<char>, places: nat) -> Result<DecimalView, TimeDesignationError> {
    match parse_decimal(number) {
        None => Err(TimeDesignationError::ParseFloat),
        Some(value) => if value.negative {
            Err(TimeDesignationError::Negative)
        } else {
            Ok(value.shifted(places))
        },
    }
}

/// The offset of time that a text stands for: a number that is not negative,
/// followed at once by `ms` or `s`.
pub open spec fn parse_time(text: Seq<char>) -> Result<DecimalView, TimeDesignationError> {
    if byte_length(text) < 2 {
        Err(TimeDesignationError::BadLength)
    } else if ends_in_millis(text) {
        time_of(text.take(text.len() - 2), 0)
    } else if ends_in_seconds(text) {
        time_of(text.take(text.len() - 1), 3)
    } else {
        Err(TimeDesignationError::BadUnit)
    }
}

/// A time designation is a representation of a non-negative offset of time.
///
/// Time designations can be provided in either seconds (`s`) or milliseconds
/// (`ms`): `15s`, `750ms` and `+0.75s` are time designations, `-5s`, `5 s`,
/// `15sec` and `5m` are not.
#[derive(Debug, PartialEq, Eq)]
pub struct TimeDesignation {
    millis: Decimal,
}

impl TimeDesignation {
    /// The offset in milliseconds.
    pub closed spec fn view(&self) -> DecimalView {
        self.millis@
    }

    /// The text of an offset of `millis` milliseconds: the signed number and
    /// the unit.
    pub open spec fn text_of(millis: DecimalView) -> Seq<char> {
        millis.signed_text() + seq!['m', 's']
    }

    /// Create a [`TimeDesignation`] from a set number of milliseconds.
    pub fn from_millis(millis: Decimal) -> (r: Self)
        ensures
            r@ == millis@,
    {
        TimeDesignation { millis }
    }

    /// Convert this time designation to milliseconds.
    pub fn to_millis(&self) -> (r: &Decimal)
        ensures
            r@ == self@,
    {
        &self.millis
    }

    /// The offset that a text stands for.
    pub fn parse(s: &str) -> (r: Result<Self, TimeDesignationError>)
        ensures
            match parse_time(s@) {
                Ok(millis) => r is Ok && r->Ok_0@ == millis,
                Err(e) => r == Err::<Self, TimeDesignationError>(e),
            },
    {
        let len = s.as_bytes().len();
        assert(len == byte_length(s@)) by {
            assert(s.spec_bytes() == vstd::utf8::encode_utf8(s@));
        }
        if len < 2 {
            return Err(TimeDesignationError::BadLength);
        }
        let chars = util::chars_of(s);
        let n = chars.len();
        let (places, skip): (u8, usize) = if n >= 2 && chars[n - 2] == 'm' && chars[n - 1] == 's' {
            (0, 2)
        } else if n >= 1 && chars[n - 1] == 's' && len - 2 < n && is_digit_or_point(chars[len - 2]) {
            (3, 1)
        } else {
            return Err(TimeDesignationError::BadUnit);
        };
        match Decimal::parse_chars(&chars, n - skip) {
            None => Err(TimeDesignationError::ParseFloat),
            Some(value) => {
                if value.is_negative() {
                    Err(TimeDesignationError::Negative)
                } else {
                    Ok(TimeDesignation { millis: value.shifted(places) })
                }
            },
        }
    }

    /// The offset that a text stands for, or none where the text stands for
    /// no offset.
    pub fn parse_or_default(s: &str) -> (r: Self)
        ensures
            r@ == match parse_time(s@) {
                Ok(millis) => millis,
                Err(_) => DecimalView::zero(),
            },
    {
        match TimeDesignation::parse(s) {
            Ok(time) => time,
            Err(_) => TimeDesignation { millis: Decimal::zero() },
        }
    }

    /// The offset as text: the number of milliseconds with its sign, then `ms`.
    pub fn to_string(&self) -> (r: String)
        ensures
            r@ == Self::text_of(self@),
    {
        let mut out = String::new();
        self.escaped_fmt(&mut out);
        assert(Seq::<char>::empty() + Self::text_of(self@) =~= Self::text_of(self@));
        out
    }
}

/// Whether a character is a digit or a decimal point.
fn is_digit_or_point(c: char) -> (r: bool)
    ensures
        r == (is_digit(c) || c == '.'),
{
    let v = c as u32;
    (48 <= v && v <= 57) || c == '.'
}

impl Clone for TimeDesignation {
    fn clone(&self) -> (r: Self)
        ensures
            r@ == self@,
    {
        TimeDesignation { millis: self.millis.clone() }
    }
}

impl Default for TimeDesignation {
    fn default() -> (r: Self)
        ensures
            r@ == DecimalView::zero(),
    {
        TimeDesignation { millis: Decimal::zero() }
    }
}

impl From<&str> for TimeDesignation {
    fn from(value: &str) -> (r: TimeDesignation)
        ensures
            r@ == match parse_time(value@) {
                Ok(millis) => millis,
                Err(_) => DecimalView::zero(),
            },
    {
        TimeDesignation::parse_or_default(value)
    }
}

impl vstd::std_specs::convert::FromSpecImpl<&str> for TimeDesignation {
    open spec fn obeys_from_spec() -> bool {
        false
    }

    open spec fn from_spec(value: &str) -> TimeDesignation {
        arbitrary()
    }
}

impl core::str::FromStr for TimeDesignation {
    type Err = TimeDesignationError;

    fn from_str(s: &str) -> (r: Result<Self, TimeDesignationError>)
        ensures
            match parse_time(s@) {
                Ok(millis) => r is Ok && r->Ok_0@ == millis,
                Err(e) => r == Err::<Self, TimeDesignationError>(e),
            },
    {
        TimeDesignation::parse(s)
    }
}

impl EscapedDisplay for TimeDesignation {
    open spec fn escaped_text(&self) -> Seq<char> {
        Self::text_of(self@)
    }

    fn escaped_fmt(&self, w: &mut String) {
        self.millis.assert_well_formed();
        proof {
            lemma_decimal_text_is_inert(self@);
        }
        self.millis.write_signed(w);
        w.push('m');
        w.push('s');
        assert(w@ =~= old(w)@ + Self::text_of(self@));
    }
}

impl EscapedDisplay for &TimeDesignation {
    open spec fn escaped_text(&self) -> Seq<char> {
        (*self).escaped_text()
    }

    fn escaped_fmt(&self, w: &mut String) {
        (*self).escaped_fmt(w)
    }
}

/// Why a text is no offset of loudness.
#[derive(Debug, Clone, Copy, PartialEq, Eq, Structural)]
pub enum DecibelsError {
    /// The text does not end in `dB`.
    BadUnit,
    /// The text is too short to hold a number and a unit.
    BadLength,
    /// What precedes the unit is no number.
    ParseFloat,
}

impl DecibelsError {
    /// What went wrong, in words.
    pub open spec fn text(self) -> Seq<char> {
        match self {
            DecibelsError::BadUnit => "decibels has invalid unit (allowed are dB)"@,
            DecibelsError::BadLength => "string is too short to be a valid decibel value"@,
            DecibelsError::ParseFloat => "couldn't parse number"@,
        }
    }

    /// What went wrong, in words.
    pub fn message(&self) -> (r: &'static str)
        ensures
            r@ == self.text(),
    {
        match self {
            DecibelsError::BadUnit => "decibels has invalid unit (allowed are dB)",
            DecibelsError::BadLength => "string is too short to be a valid decibel value",
            DecibelsError::ParseFloat => "couldn't parse number",
        }
    }
}

/// Whether a text ends in the unit `dB`.
pub open spec fn ends_in_decibels(text: Seq<char>) -> bool {
    text.len() >= 2 && text[text.len() - 2] == 'd' && text[text.len() - 1] == 'B'
}

/// The offset of loudness that a text stands for: a number, followed at once
/// by `dB`.
pub open spec fn parse_decibels(text: Seq<char>) -> Result<DecimalView, DecibelsError> {
    if byte_length(text) < 2 {
        Err(DecibelsError::BadLength)
    } else if !ends_in_decibels(text) {
        Err(DecibelsError::BadUnit)
    } else {
        match parse_decimal(text.take(text.len() - 2)) {
            None => Err(DecibelsError::ParseFloat),
            Some(value) => Ok(value),
        }
    }
}

/// A string representation of a signed amplitude offset in decibels (`dB`):
/// `+0.0dB`, `-6dB` and `2dB` are such offsets, `-3DB`, `0 dB` and `6` are
/// not.
#[derive(Debug, PartialEq, Eq)]
pub struct Decibels(Decimal);

impl Decibels {
    /// The offset in decibels.
    pub closed spec fn view(&self) -> DecimalView {
        self.0@
    }

    /// The text of an offset of `value` decibels: the signed number and the
    /// unit.
    pub open spec fn text_of(value: DecimalView) -> Seq<char> {
        value.signed_text() + seq!['d', 'B']
    }

    /// An offset of `value` decibels.
    pub fn new(value: Decimal) -> (r: Self)
        ensures
            r@ == value@,
    {
        Decibels(value)
    }

    /// The offset in decibels.
    pub fn value(&self) -> (r: &Decimal)
        ensures
            r@ == self@,
    {
        &self.0
    }

    /// The offset that a text stands for.
    pub fn parse(s: &str) -> (r: Result<Self, DecibelsError>)
        ensures
            match parse_decibels(s@) {
                Ok(value) => r is Ok && r->Ok_0@ == value,
                Err(e) => r == Err::<Self, DecibelsError>(e),
            },
    {
        let len = s.as_bytes().len();
        assert(len == byte_length(s@)) by {
            assert(s.spec_bytes() == vstd::utf8::encode_utf8(s@));
        }
        if len < 2 {
            return Err(DecibelsError::BadLength);
        }
        let chars = util::chars_of(s);
        let n = chars.len();
        if !(n >= 2 && chars[n - 2] == 'd' && chars[n - 1] == 'B') {
            return Err(DecibelsError::BadUnit);
        }
        match Decimal::parse_chars(&chars, n - 2) {
            None => Err(DecibelsError::ParseFloat),
            Some(value) => Ok(Decibels(value)),
        }
    }

    /// The offset that a text stands for, or none where the text stands for
    /// no offset.
    pub fn parse_or_default(s: &str) -> (r: Self)
        ensures
            r@ == match parse_decibels(s@) {
                Ok(value) => value,
                Err(_) => DecimalView::zero(),
            },
    {
        match Decibels::parse(s) {
            Ok(value) => value,
            Err(_) => Decibels(Decimal::zero()),
        }
    }

    /// The offset as text: the number of decibels with its sign, then `dB`.
    pub fn to_string(&self) -> (r: String)
        ensures
            r@ == Self::text_of(self@),
    {
        let mut out = String::new();
        self.escaped_fmt(&mut out);
        assert(Seq::<char>::empty() + Self::text_of(self@) =~= Self::text_of(self@));
        out
    }
}

impl Clone for Decibels {
    fn clone(&self) -> (r: Self)
        ensures
            r@ == self@,
    {
        Decibels(self.0.clone())
    }
}

impl Default for Decibels {
    fn default() -> (r: Self)
        ensures
            r@ == DecimalView::zero(),
    {
        Decibels(Decimal::zero())
    }
}

impl From<&str> for Decibels {
    fn from(value: &str) -> (r: Decibels)
        ensures
            r@ == match parse_decibels(value@) {
                Ok(decibels) => decibels,
                Err(_) => DecimalView::zero(),
            },
    {
        Decibels::parse_or_default(value)
    }
}

impl vstd::std_specs::convert::FromSpecImpl<&str> for Decibels {
    open spec fn obeys_from_spec() -> bool {
        false
    }

    open spec fn from_spec(value: &str) -> Decibels {
        arbitrary()
    }
}

impl From<Decimal> for Decibels {
    fn from(value: Decimal) -> (r: Decibels)
        ensures
            r@ == value@,
    {
        Decibels(value)
    }
}

impl vstd::std_specs::convert::FromSpecImpl<Decimal> for Decibels {
    open spec fn obeys_from_spec() -> bool {
        false
    }

    open spec fn from_spec(value: Decimal) -> Decibels {
        arbitrary()
    }
}

impl core::str::FromStr for Decibels {
    type Err = DecibelsError;

    fn from_str(s: &str) -> (r: Result<Self, DecibelsError>)
        ensures
            match parse_decibels(s@) {
                Ok(value) => r is Ok && r->Ok_0@ == value,
                Err(e) => r == Err::<Self, DecibelsError>(e),
            },
    {
        Decibels::parse(s)
    }
}

impl EscapedDisplay for Decibels {
    open spec fn escaped_text(&self) -> Seq<char> {
        Self::text_of(self@)
    }

    fn escaped_fmt(&self, w: &mut String) {
        self.0.assert_well_formed();
        proof {
            lemma_decimal_text_is_inert(self@);
        }
        self.0.write_signed(w);
        w.push('d');
        w.push('B');
        assert(w@ =~= old(w)@ + Self::text_of(self@));
    }
}

impl EscapedDisplay for &Decibels {
    open spec fn escaped_text(&self) -> Seq<char> {
        (*self).escaped_text()
    }

    fn escaped_fmt(&self, w: &mut String) {
        (*self).escaped_fmt(w)
    }
}

impl EscapedDisplay for &Decimal {
    open spec fn escaped_text(&self) -> Seq<char> {
        self@.plain_text()
    }

    fn escaped_fmt(&self, w: &mut String) {
        self.assert_well_formed();
        proof {
            lemma_decimal_text_is_inert(self@);
        }
        self.write_plain(w);
    }
}

/// A ratio, written as a percentage: `1` is `100%`.
pub struct SpeedFormatter<'a>(pub &'a Decimal);

impl SpeedFormatter<'_> {
    /// The text of a ratio as a percentage.
    pub open spec fn text_of(ratio: DecimalView) -> Seq<char> {
        ratio.shifted(2).plain_text() + seq!['%']
    }
}

impl EscapedDisplay for SpeedFormatter<'_> {
    open spec fn escaped_text(&self) -> Seq<char> {
        Self::text_of(self.0@)
    }

    fn escaped_fmt(&self, w: &mut String) {
        let percent = self.0.shifted(2);
        percent.assert_well_formed();
        proof {
            lemma_decimal_text_is_inert(percent@);
        }
        percent.write_plain(w);
        w.push('%');
        assert(w@ =~= old(w)@ + Self::text_of(self.0@));
    }
}

impl Default for Decimal {
    fn default() -> (r: Self)
        ensures
            r@ == DecimalView::zero(),
    {
        Decimal::zero()
    }
}

} // verus!
