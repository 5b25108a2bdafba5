//! The length that a request declares for its body.
//!
//! A content length is a decimal number: an optional `+`, then one or more of
//! the digits `0` to `9`, and nothing else. Text of any other shape declares
//! nothing. A number may be larger than a `usize` can hold: it is still a
//! declared length, one that is over every limit.
use vstd::prelude::*;
use vstd::string::*;
use vstd::utf8::is_ascii_chars;

verus! {

/// Whether `c` is one of the decimal digits `0` to `9`.
pub open spec fn is_digit(c: char) -> bool {
    '0' <= c <= '9'
}

/// The number that the decimal digit `c` stands for.
pub open spec fn digit_value(c: char) -> nat {
    (c as int - '0' as int) as nat
}

/// The number that a run of decimal digits writes, most significant digit
/// first; 0 for the empty run.
pub open spec fn decimal(digits: Seq<char>) -> nat
    decreases digits.len(),
{
    if digits.len() == 0 {
        0
    } else {
        10 * decimal(digits.drop_last()) + digit_value(digits.last())
    }
}

/// `text` without the `+` that may precede the digits.
pub open spec fn unsigned(text: Seq<char>) -> Seq<char> {
    if text.len() > 0 && text[0] == '+' {
        text.skip(1)
    } else {
        text
    }
}

/// Whether `text` has the shape of a content length: an optional `+`, then at
/// least one digit and only digits.
pub open spec fn is_number(text: Seq<char>) -> bool {
    let digits = unsigned(text);
    digits.len() > 0 && forall|i: int| 0 <= i < digits.len() ==> is_digit(#[trigger] digits[i])
}

/// The number that `text` writes, if it has the shape of a content length.
pub open spec fn number(text: Seq<char>) -> Option<nat> {
    if is_number(text) {
        Some(decimal(unsigned(text)))
    } else {
        None
    }
}

/// A length as a request declares it.
#[derive(Clone, Copy, Debug, PartialEq, Eq, Structural)]
pub enum Length {
    /// This many bytes.
    Bytes(usize),
    /// More bytes than a `usize` can count.
    Beyond,
}

impl Length {
    /// The length that stands for the number `n`.
    pub open spec fn of(n: nat) -> Length {
        if n <= usize::MAX {
            Length::Bytes(n as usize)
        } else {
            Length::Beyond
        }
    }

    /// Whether the length is over `limit`.
    pub open spec fn exceeds(self, limit: usize) -> bool {
        match self {
            Length::Bytes(n) => n > limit,
            Length::Beyond => true,
        }
    }

    /// Whether the length is over `limit`. A length beyond `usize` is over
    /// every limit.
    pub fn is_over(&self, limit: usize) -> (over: bool)
        ensures
            over == self.exceeds(limit),
    {
        match self {
            Length::Bytes(n) => *n > limit,
            Length::Beyond => true,
        }
    }
}

/// The length that a content-length header declares: the number it writes,
/// if the header is there and is a number.
pub open spec fn declared_length(header: Option<Seq<char>>) -> Option<Length> {
    match header {
        None => None,
        Some(text) => match number(text) {
            Some(n) => Some(Length::of(n)),
            None => None,
        },
    }
}

/// The length that stands for a number is over a limit exactly if the number
/// is.
pub proof fn lemma_exceeds(n: nat, limit: usize)
    ensures
        Length::of(n).exceeds(limit) <==> n > limit,
{
}

/// One more digit multiplies the number by ten and adds the digit.
proof fn lemma_decimal_step(digits: Seq<char>, k: int)
    requires
        0 <= k < digits.len(),
    ensures
        decimal(digits.take(k + 1)) == 10 * decimal(digits.take(k)) + digit_value(digits[k]),
{
    assert(digits.take(k + 1).drop_last() =~= digits.take(k));
}

/// Reads the length that a content-length header value declares.
///
/// Returns the number for text such as `0`, `42` or `+42`, and
/// [`Length::Beyond`] for a number too large for a `usize`. Returns `None` for
/// empty text, for text with a sign only, a minus sign, blanks or any other
/// character that is no digit.
pub fn parse_length(text: &str) -> (length: Option<Length>)
    ensures
        length == declared_length(Some(text@)),
{
    if !text.is_ascii() {
        proof {
            let i = choose|i: int| 0 <= i < text@.len() && !('\0' <= #[trigger] text@[i] <= '\u{7f}');
            if text@[0] == '+' {
                assert(unsigned(text@)[i - 1] == text@[i]);
            }
        }
        return None;
    }
    let bytes = text.as_bytes();
    proof {
        is_ascii_spec_bytes(text);
    }
    let n: usize = bytes.len();
    let start: usize = if n > 0 && bytes[0] == 43u8 {
        1
    } else {
        0
    };
    let ghost digits = unsigned(text@);
    assert(digits =~= text@.skip(start as int));
    if start == n {
        return None;
    }
    let mut value: usize = 0;
    let mut beyond: bool = false;
    let mut i: usize = start;
    while i < n
        invariant
            start <= i <= n,
            n == text@.len(),
            n == bytes@.len(),
            is_ascii_chars(text@),
            forall|j: int| 0 <= j < n ==> bytes@[j] == text@[j] as u8,
            digits == text@.skip(start as int),
            digits == unsigned(text@),
            digits.len() == n - start,
            digits.len() > 0,
            forall|j: int| 0 <= j < i - start ==> is_digit(#[trigger] digits[j]),
            !beyond ==> value == decimal(digits.take(i - start)),
            beyond ==> decimal(digits.take(i - start)) > usize::MAX,
        decreases n - i,
    {
        let b: u8 = bytes[i];
        let ghost c = digits[i - start];
        assert(c == text@[i as int]);
        assert('\0' <= text@[i as int] <= '\u{7f}');
        if b < 48u8 || b > 57u8 {
            assert(!is_digit(c));
            return None;
        }
        assert(is_digit(c));
        proof {
            lemma_decimal_step(digits, i - start);
        }
        let digit: usize = (b - 48u8) as usize;
        assert(digit == digit_value(c));
        if !beyond {
            match value.checked_mul(10) {
                Some(tens) => match tens.checked_add(digit) {
                    Some(sum) => {
                        value = sum;
                    },
                    None => {
                        beyond = true;
                    },
                },
                None => {
                    beyond = true;
                },
            }
        }
        i = i + 1;
    }
    assert(digits.take(i - start) =~= digits);
    if beyond {
        Some(Length::Beyond)
    } else {
        Some(Length::Bytes(value))
    }
}

} // verus!
