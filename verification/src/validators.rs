//! Pre-built leaf property validators: one-line predicates over options,
//! ranges, equality, string length and ordering, each paired with its
//! failure message.

use vstd::prelude::*;

verus! {

use vstd::std_specs::cmp::PartialEqSpec;
use vstd::std_specs::cmp::PartialOrdIs;
use vstd::std_specs::cmp::PartialOrdSpec;

use crate::PropertyValidator;

/// Validate that an optional value contains a value.
pub struct IsSome;

impl<T> PropertyValidator<Option<T>> for IsSome {
    open spec fn wf(&self) -> bool {
        true
    }

    open spec fn valid_spec(&self, value: &Option<T>) -> bool {
        *value is Some
    }

    open spec fn message_spec(&self) -> Seq<char> {
        "Expected value to exist"@
    }

    fn is_valid(&self, value: &Option<T>) -> bool {
        value.is_some()
    }

    fn message(&self) -> String {
        "Expected value to exist".to_owned()
    }
}

/// Validate that an optional value does not contain a value.
pub struct IsNone;

impl<T> PropertyValidator<Option<T>> for IsNone {
    open spec fn wf(&self) -> bool {
        true
    }

    open spec fn valid_spec(&self, value: &Option<T>) -> bool {
        *value is None
    }

    open spec fn message_spec(&self) -> Seq<char> {
        "Expected value to not exist"@
    }

    fn is_valid(&self, value: &Option<T>) -> bool {
        value.is_none()
    }

    fn message(&self) -> String {
        "Expected value to not exist".to_owned()
    }
}

/// Validate that a value falls within a given closed range.
pub struct InRange<T: PartialOrd> {
    pub min: T,
    pub max: T,
}

impl<T: PartialOrd> PropertyValidator<T> for InRange<T> {
    open spec fn wf(&self) -> bool {
        T::obeys_partial_cmp_spec()
    }

    open spec fn valid_spec(&self, value: &T) -> bool {
        self.min.is_le(value) && self.max.is_ge(value)
    }

    open spec fn message_spec(&self) -> Seq<char> {
        "Expected value to be in range"@
    }

    fn is_valid(&self, value: &T) -> bool {
        self.min.le(value) && self.max.ge(value)
    }

    fn message(&self) -> String {
        "Expected value to be in range".to_owned()
    }
}

/// Validate that a value equals another.
pub struct Equal<T: PartialEq>(pub T);

impl<T: PartialEq> PropertyValidator<T> for Equal<T> {
    open spec fn wf(&self) -> bool {
        T::obeys_eq_spec()
    }

    open spec fn valid_spec(&self, value: &T) -> bool {
        value.eq_spec(&self.0)
    }

    open spec fn message_spec(&self) -> Seq<char> {
        "Expected values to be equal"@
    }

    fn is_valid(&self, value: &T) -> bool {
        value.eq(&self.0)
    }

    fn message(&self) -> String {
        "Expected values to be equal".to_owned()
    }
}

/// Validate that a value does not equal another.
pub struct NotEqual<T: PartialEq>(pub T);

impl<T: PartialEq> PropertyValidator<T> for NotEqual<T> {
    open spec fn wf(&self) -> bool {
        T::obeys_eq_spec()
    }

    open spec fn valid_spec(&self, value: &T) -> bool {
        !value.eq_spec(&self.0)
    }

    open spec fn message_spec(&self) -> Seq<char> {
        "Expected value to not be equal"@
    }

    fn is_valid(&self, value: &T) -> bool {
        value.ne(&self.0)
    }

    fn message(&self) -> String {
        "Expected value to not be equal".to_owned()
    }
}

/// The UTF-8 byte length of a string value, as `str::len` reports it.
pub open spec fn byte_len(s: Seq<char>) -> usize {
    vstd::utf8::encode_utf8(s).len() as usize
}

/// Validate that a value's length falls within a given closed range.
pub struct Len {
    pub min: usize,
    pub max: usize,
}

impl PropertyValidator<String> for Len {
    open spec fn wf(&self) -> bool {
        true
    }

    open spec fn valid_spec(&self, value: &String) -> bool {
        self.min <= byte_len(value@) && byte_len(value@) <= self.max
    }

    open spec fn message_spec(&self) -> Seq<char> {
        "Expected value length to be in range"@
    }

    fn is_valid(&self, value: &String) -> bool {
        InRange { min: self.min, max: self.max }.is_valid(&value.as_str().len())
    }

    fn message(&self) -> String {
        "Expected value length to be in range".to_owned()
    }
}

/// Validate that a value's length is no less than a given minimum.
pub struct MinLen(pub usize);

impl PropertyValidator<String> for MinLen {
    open spec fn wf(&self) -> bool {
        true
    }

    open spec fn valid_spec(&self, value: &String) -> bool {
        byte_len(value@) >= self.0
    }

    open spec fn message_spec(&self) -> Seq<char> {
        "Expected value length to be no less than "@ + decimal_digits(self.0 as nat)
    }

    fn is_valid(&self, value: &String) -> bool {
        value.as_str().len() >= self.0
    }

    fn message(&self) -> String {
        let mut r = "Expected value length to be no less than ".to_owned();
        let digits = usize_decimal(self.0);
        r.append(digits.as_str());
        r
    }
}

/// Validate that a value's length is no more than a given maximum.
pub struct MaxLen(pub usize);

impl PropertyValidator<String> for MaxLen {
    open spec fn wf(&self) -> bool {
        true
    }

    open spec fn valid_spec(&self, value: &String) -> bool {
        byte_len(value@) <= self.0
    }

    open spec fn message_spec(&self) -> Seq<char> {
        "Expected value length to be no more than "@ + decimal_digits(self.0 as nat)
    }

    fn is_valid(&self, value: &String) -> bool {
        value.as_str().len() <= self.0
    }

    fn message(&self) -> String {
        let mut r = "Expected value length to be no more than ".to_owned();
        let digits = usize_decimal(self.0);
        r.append(digits.as_str());
        r
    }
}

/// Validate that a value is less than a given value.
pub struct LessThan<T: PartialOrd>(pub T);

impl<T: PartialOrd> PropertyValidator<T> for LessThan<T> {
    open spec fn wf(&self) -> bool {
        T::obeys_partial_cmp_spec()
    }

    open spec fn valid_spec(&self, value: &T) -> bool {
        value.is_lt(&self.0)
    }

    open spec fn message_spec(&self) -> Seq<char> {
        "Expected value to be lesser"@
    }

    fn is_valid(&self, value: &T) -> bool {
        value.lt(&self.0)
    }

    fn message(&self) -> String {
        "Expected value to be lesser".to_owned()
    }
}

/// Validate that a value is greater than a given value.
pub struct GreaterThan<T: PartialOrd>(pub T);

impl<T: PartialOrd> PropertyValidator<T> for GreaterThan<T> {
    open spec fn wf(&self) -> bool {
        T::obeys_partial_cmp_spec()
    }

    open spec fn valid_spec(&self, value: &T) -> bool {
        value.is_gt(&self.0)
    }

    open spec fn message_spec(&self) -> Seq<char> {
        "Expected value to be greater"@
    }

    fn is_valid(&self, value: &T) -> bool {
        value.gt(&self.0)
    }

    fn message(&self) -> String {
        "Expected value to be greater".to_owned()
    }
}

/// Validate that a value is less than or equal to a given value.
pub struct LessThanOrEqual<T: PartialOrd>(pub T);

/// Validate that a value is greater than or equal to a given value.
pub struct GreaterThanOrEqual<T: PartialOrd>(pub T);

/// The character for one decimal digit.
pub open spec fn decimal_digit(d: nat) -> char {
    if d == 0 {
        '0'
    } else if d == 1 {
        '1'
    } else if d == 2 {
        '2'
    } else if d == 3 {
        '3'
    } else if d == 4 {
        '4'
    } else if d == 5 {
        '5'
    } else if d == 6 {
        '6'
    } else if d == 7 {
        '7'
    } else if d == 8 {
        '8'
    } else {
        '9'
    }
}

/// The decimal digit characters of `n`, most significant first, with no
/// sign or padding.
pub open spec fn decimal_digits(n: nat) -> Seq<char>
    decreases n,
{
    if n < 10 {
        seq![decimal_digit(n)]
    } else {
        decimal_digits(n / 10).push(decimal_digit(n % 10))
    }
}

fn decimal_digit_str(d: usize) -> (r: &'static str)
    requires
        d < 10,
    ensures
        r@ == seq![decimal_digit(d as nat)],
{
    proof {
        reveal_strlit("0");
        reveal_strlit("1");
        reveal_strlit("2");
        reveal_strlit("3");
        reveal_strlit("4");
        reveal_strlit("5");
        reveal_strlit("6");
        reveal_strlit("7");
        reveal_strlit("8");
        reveal_strlit("9");
    }
    if d == 0 {
        "0"
    } else if d == 1 {
        "1"
    } else if d == 2 {
        "2"
    } else if d == 3 {
        "3"
    } else if d == 4 {
        "4"
    } else if d == 5 {
        "5"
    } else if d == 6 {
        "6"
    } else if d == 7 {
        "7"
    } else if d == 8 {
        "8"
    } else {
        "9"
    }
}

fn usize_decimal(n: usize) -> (r: String)
    ensures
        r@ == decimal_digits(n as nat),
    decreases n,
{
    if n < 10 {
        decimal_digit_str(n).to_owned()
    } else {
        let mut r = usize_decimal(n / 10);
        let last = decimal_digit_str(n % 10);
        r.append(last);
        proof {
            assert(r@ =~= decimal_digits(n as nat));
        }
        r
    }
}

} // verus!
