//! The format checks of a new user's e-mail address and phone number.

use vstd::prelude::*;
use crate::text::{all_decimal_digits, decimal_digit, is_decimal_digit};

verus! {

/// Whether `lettre` reads `s` as an e-mail address (`Address::from_str`:
/// `user@domain`, both parts checked).
pub uninterp spec fn email_address_accepted(s: Seq<char>) -> bool;

/// Calls `s.parse::<lettre::Address>()` and tells whether it succeeded.
#[verifier::external_body]
fn parses_as_address(s: &str) -> (b: bool)
    ensures
        b == email_address_accepted(s@),
{
    s.parse::<lettre::Address>().is_ok()
}

/// An e-mail address is valid when `lettre` accepts it as an address.
pub fn validate_email(email: &str) -> (b: bool)
    ensures
        b == email_address_accepted(email@),
{
    parses_as_address(email)
}

/// A phone number: an optional leading `+`, then one or more decimal digits
/// and nothing else.
pub open spec fn phone_format(p: Seq<char>) -> bool {
    let digits = if p.len() > 0 && p[0] == '+' { p.skip(1) } else { p };
    digits.len() > 0 && all_decimal_digits(digits)
}

/// Checks [`phone_format`].
pub fn validate_phone(phone: &str) -> (b: bool)
    ensures
        b == phone_format(phone@),
{
    let n = phone.unicode_len();
    let start: usize = if n > 0 && phone.get_char(0) == '+' { 1 } else { 0 };
    let ghost digits = phone@.skip(start as int);
    assert(digits == (if phone@.len() > 0 && phone@[0] == '+' { phone@.skip(1) } else { phone@ }));
    if start == n {
        return false;
    }
    let mut i = start;
    while i < n
        invariant
            n == phone@.len(),
            start <= i <= n,
            digits == phone@.skip(start as int),
            digits == (if phone@.len() > 0 && phone@[0] == '+' { phone@.skip(1) } else { phone@ }),
            forall|j: int| 0 <= j < i - start ==> is_decimal_digit(#[trigger] digits[j]),
        decreases n - i,
    {
        let c = phone.get_char(i);
        assert(digits[i - start] == c);
        if !decimal_digit(c) {
            assert(!is_decimal_digit(digits[i - start]));
            return false;
        }
        i = i + 1;
    }
    assert(digits.len() == n - start);
    true
}

} // verus!
