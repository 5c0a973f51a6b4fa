//! Target-type implementations of the capability traits: a verified decimal
//! parser for `i32`, the `true`/`false` grammar for `bool`, and the identity
//! conversions for `String`.

use vstd::prelude::*;

use crate::convert::{CloneValue, FromText, TextParse, WithDefault};

verus! {

/// Whether `c` is an ASCII decimal digit.
pub open spec fn is_dec_digit(c: char) -> bool {
    48 <= c as int && c as int <= 57
}

/// Whether `s` is one or more decimal digits.
pub open spec fn all_dec_digits(s: Seq<char>) -> bool {
    s.len() > 0 && forall|i: int| 0 <= i < s.len() ==> is_dec_digit(#[trigger] s[i])
}

/// The non-negative integer denoted by a digit sequence `s`.
pub open spec fn dec_value(s: Seq<char>) -> int
    decreases s.len(),
{
    if s.len() == 0 {
        0
    } else {
        dec_value(s.drop_last()) * 10 + (s.last() as int - 48)
    }
}

/// The integer denoted by `text` under the usual decimal grammar (an optional
/// `+` or `-` sign, then one or more digits), or `None` when `text` is
/// malformed.
pub open spec fn dec_int(text: Seq<char>) -> Option<int> {
    if text.len() > 0 && (text[0] == '+' || text[0] == '-') {
        let digits = text.subrange(1, text.len() as int);
        if all_dec_digits(digits) {
            Some(
                if text[0] == '-' {
                    -dec_value(digits)
                } else {
                    dec_value(digits)
                },
            )
        } else {
            None
        }
    } else {
        if all_dec_digits(text) {
            Some(dec_value(text))
        } else {
            None
        }
    }
}

proof fn lemma_dec_value_nonneg(s: Seq<char>)
    requires
        forall|i: int| 0 <= i < s.len() ==> is_dec_digit(#[trigger] s[i]),
    ensures
        dec_value(s) >= 0,
    decreases s.len(),
{
    if s.len() > 0 {
        lemma_dec_value_nonneg(s.drop_last());
    }
}

proof fn lemma_dec_value_push(s: Seq<char>, c: char)
    ensures
        dec_value(s.push(c)) == dec_value(s) * 10 + (c as int - 48),
{
    assert(s.push(c).drop_last() =~= s);
}

impl CloneValue for i32 {
    fn clone_value(&self) -> (r: Self) {
        *self
    }
}

impl TextParse for i32 {
    open spec fn parse_ok(text: Seq<char>) -> bool {
        match dec_int(text) {
            Some(n) => i32::MIN <= n <= i32::MAX,
            None => false,
        }
    }

    open spec fn is_parse_of(text: Seq<char>, v: Self) -> bool {
        dec_int(text) == Some(v as int)
    }

    open spec fn parse_error_text(text: Seq<char>) -> Seq<char> {
        if text.len() == 0 {
            "cannot parse integer from empty string"@
        } else if dec_int(text) is None {
            "invalid digit found in string"@
        } else {
            "number out of range for an i32"@
        }
    }

    fn parse_text(text: &String) -> (r: Result<Self, String>) {
        parse_i32_text(text)
    }
}

fn parse_i32_text(text: &String) -> (r: Result<i32, String>)
    ensures
        <i32 as TextParse>::parse_ok(text@) ==> (r matches Ok(v) && <i32 as TextParse>::is_parse_of(text@, v)),
        !<i32 as TextParse>::parse_ok(text@) ==> (r matches Err(m) && m@ == <i32 as TextParse>::parse_error_text(text@)),
{
    let s = text.as_str();
    let n = s.unicode_len();
    if n == 0 {
        return Err("cannot parse integer from empty string".to_owned());
    }
    let first = s.get_char(0);
    let neg = first == '-';
    let start: usize = if first == '-' || first == '+' {
        1
    } else {
        0
    };
    if start == n {
        // a sign with no digits after it
        return Err("invalid digit found in string".to_owned());
    }
    let mut idx: usize = start;
    let mut acc: u64 = 0;
    let mut over: bool = false;
    while idx < n
        invariant
            start <= idx <= n,
            n == text@.len(),
            s@ == text@,
            start == 0 || start == 1,
            (start == 1) == (text@[0] == '+' || text@[0] == '-'),
            neg == (text@[0] == '-'),
            forall|j: int| start <= j < idx ==> is_dec_digit(#[trigger] text@[j]),
            !over ==> acc == dec_value(text@.subrange(start as int, idx as int)) && acc
                <= 0xA_0000_0009u64,
            over ==> dec_value(text@.subrange(start as int, idx as int)) > 0x1_0000_0000,
        decreases n - idx,
    {
        let c = s.get_char(idx);
        let u = c as u32;
        if u < 48 || u > 57 {
            proof {
                if start == 1 {
                    let digits = text@.subrange(1, n as int);
                    assert(!is_dec_digit(digits[idx - 1]));
                } else {
                    assert(!is_dec_digit(text@[idx as int]));
                }
            }
            return Err("invalid digit found in string".to_owned());
        }
        proof {
            let scanned = text@.subrange(start as int, idx as int);
            assert(text@.subrange(start as int, idx as int + 1) =~= scanned.push(
                text@[idx as int],
            ));
            lemma_dec_value_push(scanned, text@[idx as int]);
            if over {
                lemma_dec_value_nonneg(scanned);
            }
        }
        if over || acc > 0x1_0000_0000u64 {
            over = true;
        } else {
            acc = acc * 10 + ((u - 48) as u64);
        }
        idx += 1;
    }
    proof {
        let digits = text@.subrange(start as int, n as int);
        lemma_dec_value_nonneg(digits);
        if start == 0 {
            assert(digits =~= text@);
        }
    }
    if over {
        return Err("number out of range for an i32".to_owned());
    }
    if neg {
        if acc > 0x8000_0000u64 {
            return Err("number out of range for an i32".to_owned());
        }
        if acc == 0x8000_0000u64 {
            Ok(i32::MIN)
        } else {
            Ok(-(acc as i32))
        }
    } else {
        if acc > 0x7FFF_FFFFu64 {
            return Err("number out of range for an i32".to_owned());
        }
        Ok(acc as i32)
    }
}

impl WithDefault for i32 {
    open spec fn is_default(v: Self) -> bool {
        v == 0
    }

    fn default_value() -> (r: Self) {
        0
    }
}

impl CloneValue for bool {
    fn clone_value(&self) -> (r: Self) {
        *self
    }
}

impl TextParse for bool {
    open spec fn parse_ok(text: Seq<char>) -> bool {
        text == "true"@ || text == "false"@
    }

    open spec fn is_parse_of(text: Seq<char>, v: Self) -> bool {
        (text == "true"@ && v) || (text == "false"@ && !v)
    }

    open spec fn parse_error_text(text: Seq<char>) -> Seq<char> {
        "provided string was not `true` or `false`"@
    }

    fn parse_text(text: &String) -> (r: Result<Self, String>) {
        let true_text: String = "true".to_owned();
        if *text == true_text {
            return Ok(true);
        }
        let false_text: String = "false".to_owned();
        if *text == false_text {
            return Ok(false);
        }
        Err("provided string was not `true` or `false`".to_owned())
    }
}

impl WithDefault for bool {
    open spec fn is_default(v: Self) -> bool {
        v == false
    }

    fn default_value() -> (r: Self) {
        false
    }
}

impl CloneValue for String {
    fn clone_value(&self) -> (r: Self) {
        self.clone()
    }
}

impl TextParse for String {
    open spec fn parse_ok(text: Seq<char>) -> bool {
        true
    }

    open spec fn is_parse_of(text: Seq<char>, v: Self) -> bool {
        v@ == text
    }

    open spec fn parse_error_text(text: Seq<char>) -> Seq<char> {
        Seq::<char>::empty()
    }

    fn parse_text(text: &String) -> (r: Result<Self, String>) {
        Ok(text.clone())
    }
}

impl FromText for String {
    open spec fn is_from_text(text: Seq<char>, v: Self) -> bool {
        v@ == text
    }

    fn from_text(text: String) -> (r: Self) {
        text
    }
}

impl WithDefault for String {
    open spec fn is_default(v: Self) -> bool {
        v@ == Seq::<char>::empty()
    }

    fn default_value() -> (r: Self) {
        String::new()
    }
}

} // verus!
