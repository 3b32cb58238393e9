//! Rendering values as text.
//!
//! Filter keys and values may be of any type that can be written out as
//! characters. [`Text`] is that capability; it is implemented here for
//! strings, booleans and the primitive integers.

use vstd::prelude::*;
use vstd::string::*;

verus! {

/// A value that can be written out as a sequence of characters.
pub trait Text {
    /// The characters the value is written as.
    spec fn text(&self) -> Seq<char>;

    /// Writes the value out.
    fn to_text(&self) -> (s: String)
        ensures
            s@ == self.text(),
    ;
}

/// The character of a single decimal digit: `0` for 0 up to `9` for 9.
pub open spec fn digit_char(d: nat) -> char {
    (d + 48) as char
}

/// Decimal notation of a natural number, without leading zeros.
pub open spec fn decimal_nat(n: nat) -> Seq<char>
    decreases n,
{
    if n < 10 {
        seq![digit_char(n)]
    } else {
        decimal_nat(n / 10) + seq![digit_char(n % 10)]
    }
}

/// Decimal notation of an integer: a minus sign for negative numbers,
/// then the digits of the magnitude.
pub open spec fn decimal(n: int) -> Seq<char> {
    if n < 0 {
        seq!['-'] + decimal_nat((-n) as nat)
    } else {
        decimal_nat(n as nat)
    }
}

/// What a boolean is written as.
pub open spec fn bool_text(b: bool) -> Seq<char> {
    if b {
        "true"@
    } else {
        "false"@
    }
}

/// The one-character text of a decimal digit.
fn digit_str(d: u64) -> (s: &'static str)
    requires
        d < 10,
    ensures
        s@ == seq![digit_char(d as nat)],
{
    proof {
        reveal_strlit("0");
        reveal_strlit("1");
        reveal_strlit("2");
        reveal_strlit("3");
        reveal_strlit("4");
        reveal_strlit("5");
        reveal_strlit("6");
        reveal_strlit("7");
        reveal_strlit("8");
        reveal_strlit("9");
    }
    let s = if d == 0 {
        "0"
    } else if d == 1 {
        "1"
    } else if d == 2 {
        "2"
    } else if d == 3 {
        "3"
    } else if d == 4 {
        "4"
    } else if d == 5 {
        "5"
    } else if d == 6 {
        "6"
    } else if d == 7 {
        "7"
    } else if d == 8 {
        "8"
    } else {
        "9"
    };
    s
}

/// Writes a natural number in decimal notation.
pub fn nat_to_string(n: u64) -> (s: String)
    ensures
        s@ == decimal_nat(n as nat),
    decreases n,
{
    if n < 10 {
        String::from_str(digit_str(n))
    } else {
        let head = nat_to_string(n / 10);
        head.concat(digit_str(n % 10))
    }
}

/// Writes an integer in decimal notation.
pub fn int_to_string(n: i64) -> (s: String)
    ensures
        s@ == decimal(n as int),
{
    if n < 0 {
        let magnitude: u64 = if n == i64::MIN {
            9223372036854775808u64
        } else {
            (-n) as u64
        };
        proof {
            reveal_strlit("-");
        }
        let sign = String::from_str("-");
        sign.concat(nat_to_string(magnitude).as_str())
    } else {
        nat_to_string(n as u64)
    }
}

/// Writes a boolean as `true` or `false`.
pub fn bool_to_string(b: bool) -> (s: String)
    ensures
        s@ == bool_text(b),
{
    if b {
        String::from_str("true")
    } else {
        String::from_str("false")
    }
}

/// Whether a character is one of the ten decimal digits.
pub open spec fn is_digit(c: char) -> bool {
    48 <= c as int <= 57
}

/// The number a decimal digit stands for.
pub open spec fn digit_value(c: char) -> int {
    c as int - 48
}

/// Whether a text consists of decimal digits only.
pub open spec fn all_digits(s: Seq<char>) -> bool {
    forall|i: int| 0 <= i < s.len() ==> is_digit(#[trigger] s[i])
}

/// The number that a run of decimal digits denotes.
pub open spec fn digits_value(s: Seq<char>) -> int
    decreases s.len(),
{
    if s.len() == 0 {
        0
    } else {
        10 * digits_value(s.drop_last()) + digit_value(s.last())
    }
}

/// The integer a text denotes: an optional `+` or `-`, then at least one
/// digit and nothing else. Leading zeros are allowed; spaces, separators
/// and a sign without digits are not.
pub open spec fn parsed_integer(s: Seq<char>) -> Option<int> {
    let negative = s.len() > 0 && s[0] == '-';
    let signed = s.len() > 0 && (s[0] == '-' || s[0] == '+');
    let digits = if signed {
        s.skip(1)
    } else {
        s
    };
    if digits.len() == 0 || !all_digits(digits) {
        None
    } else if negative {
        Some(-digits_value(digits))
    } else {
        Some(digits_value(digits))
    }
}

/// The 32-bit integer a text denotes, if it denotes an integer and that
/// integer fits.
pub open spec fn parsed_i32(s: Seq<char>) -> Option<i32> {
    match parsed_integer(s) {
        Some(v) => if i32::MIN <= v <= i32::MAX {
            Some(v as i32)
        } else {
            None
        },
        None => None,
    }
}

/// A run of digits denotes at least as much as any of its beginnings, and
/// never a negative number.
pub proof fn lemma_digits_value_prefix(s: Seq<char>, k: int)
    requires
        all_digits(s),
        0 <= k <= s.len(),
    ensures
        0 <= digits_value(s.take(k)) <= digits_value(s),
    decreases s.len() - k,
{
    if k == s.len() {
        assert(s.take(k) =~= s);
        lemma_digits_value_nonnegative(s);
    } else {
        let shorter = s.drop_last();
        lemma_digits_value_prefix(shorter, k);
        assert(shorter.take(k) =~= s.take(k));
    }
}

/// A run of digits never denotes a negative number.
pub proof fn lemma_digits_value_nonnegative(s: Seq<char>)
    requires
        all_digits(s),
    ensures
        0 <= digits_value(s),
    decreases s.len(),
{
    if s.len() > 0 {
        let shorter = s.drop_last();
        lemma_digits_value_nonnegative(shorter);
    }
}

/// The decimal notation of a natural number consists of digits, at least
/// one, and denotes that number.
pub proof fn lemma_decimal_nat_denotes(n: nat)
    ensures
        decimal_nat(n).len() > 0,
        all_digits(decimal_nat(n)),
        digits_value(decimal_nat(n)) == n,
    decreases n,
{
    let s = decimal_nat(n);
    if n < 10 {
        assert(digits_value(s.drop_last()) == 0);
    } else {
        let head = decimal_nat(n / 10);
        lemma_decimal_nat_denotes(n / 10);
        assert(s.drop_last() =~= head);
    }
}

/// Reading back what was written gives the number that was written: the
/// decimal notation of an integer denotes that integer.
pub proof fn lemma_parsed_integer_of_decimal(n: int)
    ensures
        parsed_integer(decimal(n)) == Some(n),
{
    if n < 0 {
        let digits = decimal_nat((-n) as nat);
        lemma_decimal_nat_denotes((-n) as nat);
        assert(decimal(n).skip(1) =~= digits);
    } else {
        lemma_decimal_nat_denotes(n as nat);
    }
}

/// A 32-bit integer written in decimal notation reads back as itself.
pub proof fn lemma_parsed_i32_of_decimal(n: i32)
    ensures
        parsed_i32(decimal(n as int)) == Some(n),
{
    lemma_parsed_integer_of_decimal(n as int);
}

/// Reads a 32-bit integer from its decimal notation.
///
/// Returns the number where the whole text is an optional sign followed by
/// digits and the number fits in 32 bits, and `None` for every other text.
pub fn parse_i32(s: &str) -> (r: Option<i32>)
    ensures
        r == parsed_i32(s@),
{
    let n = s.unicode_len();
    if n == 0 {
        return None;
    }
    let first = s.get_char(0);
    let negative = first == '-';
    let start: usize = if first == '-' || first == '+' {
        1
    } else {
        0
    };
    if start == n {
        return None;
    }
    let ghost digits = if s@[0] == '-' || s@[0] == '+' {
        s@.skip(1)
    } else {
        s@
    };
    let mut acc: i64 = 0;
    let mut i: usize = start;
    while i < n
        invariant
            start <= i <= n,
            n == s@.len(),
            n > 0,
            digits.len() == n - start,
            digits == if s@[0] == '-' || s@[0] == '+' {
                s@.skip(1)
            } else {
                s@
            },
            forall|j: int| 0 <= j < digits.len() ==> digits[j] == s@[j + start],
            all_digits(digits.take(i - start)),
            acc == digits_value(digits.take(i - start)),
            0 <= acc <= 2147483648,
        decreases n - i,
    {
        let c = s.get_char(i);
        if !(c >= '0' && c <= '9') {
            assert(!is_digit(digits[i - start]));
            return None;
        }
        let d: i64 = (c as u32 - 48) as i64;
        let next: i64 = acc * 10 + d;
        proof {
            let upto = digits.take(i - start + 1);
            assert(upto.drop_last() =~= digits.take(i - start));
        }
        if next > 2147483648 {
            proof {
                if all_digits(digits) {
                    lemma_digits_value_prefix(digits, i - start + 1);
                }
            }
            return None;
        }
        acc = next;
        i += 1;
    }
    assert(digits.take(i - start) =~= digits);
    if negative {
        Some((-acc) as i32)
    } else if acc > 2147483647 {
        None
    } else {
        Some(acc as i32)
    }
}

/// Joins two texts with a separator between them.
pub fn infix(left: String, separator: &str, right: String) -> (s: String)
    ensures
        s@ == left@ + separator@ + right@,
{
    let mut s = left;
    s.append(separator);
    s.append(right.as_str());
    s
}

impl Text for String {
    open spec fn text(&self) -> Seq<char> {
        self@
    }

    fn to_text(&self) -> (s: String) {
        self.clone()
    }
}

impl<'a> Text for &'a str {
    open spec fn text(&self) -> Seq<char> {
        self@
    }

    fn to_text(&self) -> (s: String) {
        String::from_str(*self)
    }
}

impl Text for bool {
    open spec fn text(&self) -> Seq<char> {
        bool_text(*self)
    }

    fn to_text(&self) -> (s: String) {
        bool_to_string(*self)
    }
}

impl Text for i32 {
    open spec fn text(&self) -> Seq<char> {
        decimal(*self as int)
    }

    fn to_text(&self) -> (s: String) {
        int_to_string(*self as i64)
    }
}

impl Text for i64 {
    open spec fn text(&self) -> Seq<char> {
        decimal(*self as int)
    }

    fn to_text(&self) -> (s: String) {
        int_to_string(*self)
    }
}

impl Text for u32 {
    open spec fn text(&self) -> Seq<char> {
        decimal_nat(*self as nat)
    }

    fn to_text(&self) -> (s: String) {
        nat_to_string(*self as u64)
    }
}

impl Text for u64 {
    open spec fn text(&self) -> Seq<char> {
        decimal_nat(*self as nat)
    }

    fn to_text(&self) -> (s: String) {
        nat_to_string(*self)
    }
}

impl Text for i8 {
    open spec fn text(&self) -> Seq<char> {
        decimal(*self as int)
    }

    fn to_text(&self) -> (s: String) {
        int_to_string(*self as i64)
    }
}

impl Text for i16 {
    open spec fn text(&self) -> Seq<char> {
        decimal(*self as int)
    }

    fn to_text(&self) -> (s: String) {
        int_to_string(*self as i64)
    }
}

impl Text for isize {
    open spec fn text(&self) -> Seq<char> {
        decimal(*self as int)
    }

    fn to_text(&self) -> (s: String) {
        int_to_string(*self as i64)
    }
}

impl Text for u8 {
    open spec fn text(&self) -> Seq<char> {
        decimal_nat(*self as nat)
    }

    fn to_text(&self) -> (s: String) {
        nat_to_string(*self as u64)
    }
}

impl Text for u16 {
    open spec fn text(&self) -> Seq<char> {
        decimal_nat(*self as nat)
    }

    fn to_text(&self) -> (s: String) {
        nat_to_string(*self as u64)
    }
}

impl Text for usize {
    open spec fn text(&self) -> Seq<char> {
        decimal_nat(*self as nat)
    }

    fn to_text(&self) -> (s: String) {
        nat_to_string(*self as u64)
    }
}

impl<'a, T: Text> Text for &'a T {
    open spec fn text(&self) -> Seq<char> {
        (**self).text()
    }

    fn to_text(&self) -> (s: String) {
        (**self).to_text()
    }
}

} // verus!
