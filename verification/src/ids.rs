//! UUIDs. The library holds a UUID as its 128-bit value (`u128`, the
//! big-endian reading of its sixteen bytes); text goes through the functions
//! here.

use vstd::prelude::*;
use crate::text::push_char;
use vstd::arithmetic::power::{pow, lemma_pow_positive};
use vstd::arithmetic::div_mod::{lemma_mod_breakdown, lemma_small_mod};

verus! {

/// The lower-case hexadecimal digit of a value below sixteen.
pub open spec fn hex_char(d: int) -> char
    recommends
        0 <= d < 16,
{
    if d < 10 {
        (d + 48) as char
    } else {
        (d + 87) as char
    }
}

/// The last `k` hexadecimal digits of `v`, most significant first, padded
/// with zeros.
pub open spec fn hex_digits(v: nat, k: nat) -> Seq<char>
    decreases k,
{
    if k == 0 {
        Seq::empty()
    } else {
        hex_digits(v / 16, (k - 1) as nat).push(hex_char((v % 16) as int))
    }
}

/// The hyphenated lower-case form of a UUID, `8-4-4-4-12` hexadecimal digits,
/// as `Uuid`'s `Display` writes it.
pub open spec fn uuid_text(u: u128) -> Seq<char> {
    let h = hex_digits(u as nat, 32);
    h.subrange(0, 8) + seq!['-'] + h.subrange(8, 12) + seq!['-'] + h.subrange(12, 16) + seq!['-']
        + h.subrange(16, 20) + seq!['-'] + h.subrange(20, 32)
}

fn hex_to_char(d: u128) -> (c: char)
    requires
        d < 16,
    ensures
        c == hex_char(d as int),
{
    if d == 0 { '0' } else if d == 1 { '1' } else if d == 2 { '2' } else if d == 3 { '3' }
    else if d == 4 { '4' } else if d == 5 { '5' } else if d == 6 { '6' } else if d == 7 { '7' }
    else if d == 8 { '8' } else if d == 9 { '9' } else if d == 10 { 'a' } else if d == 11 { 'b' }
    else if d == 12 { 'c' } else if d == 13 { 'd' } else if d == 14 { 'e' } else { 'f' }
}

proof fn lemma_hex_digits_len(v: nat, k: nat)
    ensures
        hex_digits(v, k).len() == k,
    decreases k,
{
    if k > 0 {
        lemma_hex_digits_len(v / 16, (k - 1) as nat);
    }
}

fn push_range(out: &mut String, digits: &Vec<char>, from: usize, to: usize)
    requires
        from <= to <= digits@.len(),
    ensures
        final(out)@ == old(out)@ + digits@.subrange(from as int, to as int),
{
    let mut i = from;
    while i < to
        invariant
            from <= i <= to,
            to <= digits@.len(),
            out@ == old(out)@ + digits@.subrange(from as int, i as int),
        decreases to - i,
    {
        push_char(out, digits[i]);
        assert(digits@.subrange(from as int, i as int + 1) == digits@.subrange(from as int, i as int).push(digits@[i as int]));
        i = i + 1;
    }
}

/// Writes a UUID in its hyphenated lower-case form.
pub fn uuid_to_string(u: u128) -> (s: String)
    ensures
        s@ == uuid_text(u),
{
    let ghost h = hex_digits(u as nat, 32);
    proof {
        lemma_hex_digits_len(u as nat, 32);
    }
    let mut digits: Vec<char> = vec!['0'; 32];
    let mut v: u128 = u;
    let mut k: usize = 0;
    while k < 32
        invariant
            k <= 32,
            digits@.len() == 32,
            h == hex_digits(u as nat, 32),
            h.len() == 32,
            h.take(32 - k) == hex_digits(v as nat, (32 - k) as nat),
            forall|j: int| 32 - k <= j < 32 ==> digits@[j] == h[j],
        decreases 32 - k,
    {
        let m = 32 - k;
        assert(hex_digits(v as nat, m as nat) == hex_digits((v / 16) as nat, (m - 1) as nat).push(hex_char((v % 16) as int)));
        assert(h.take(m as int)[m - 1] == h[m - 1]);
        let c = hex_to_char(v % 16);
        digits.set(m - 1, c);
        assert(h.take(m as int - 1) == h.take(m as int).drop_last());
        v = v / 16;
        k = k + 1;
    }
    assert(digits@ =~= h);
    let mut s = String::new();
    push_range(&mut s, &digits, 0, 8);
    push_char(&mut s, '-');
    push_range(&mut s, &digits, 8, 12);
    push_char(&mut s, '-');
    push_range(&mut s, &digits, 12, 16);
    push_char(&mut s, '-');
    push_range(&mut s, &digits, 16, 20);
    push_char(&mut s, '-');
    push_range(&mut s, &digits, 20, 32);
    s
}

/// The value of a hexadecimal digit, in either case.
pub open spec fn hex_value(c: char) -> Option<nat> {
    let n = c as int;
    if 48 <= n <= 57 {
        Some((n - 48) as nat)
    } else if 97 <= n <= 102 {
        Some((n - 87) as nat)
    } else if 65 <= n <= 70 {
        Some((n - 55) as nat)
    } else {
        None
    }
}

/// `d` is made of hexadecimal digits only.
pub open spec fn all_hex(d: Seq<char>) -> bool {
    forall|i: int| 0 <= i < d.len() ==> hex_value(#[trigger] d[i]) is Some
}

/// The number that the hexadecimal digits `d` write, most significant first.
pub open spec fn hex_number(d: Seq<char>) -> nat
    decreases d.len(),
{
    if d.len() == 0 {
        0
    } else {
        hex_number(d.drop_last()) * 16 + match hex_value(d.last()) {
            Some(v) => v,
            None => 0,
        }
    }
}

/// The 32 digits of a hyphenated UUID, `8-4-4-4-12`: its text without the
/// four hyphens, when the text has that shape.
pub open spec fn unhyphenated(s: Seq<char>) -> Option<Seq<char>> {
    if s.len() == 36 && s[8] == '-' && s[13] == '-' && s[18] == '-' && s[23] == '-' {
        Some(s.subrange(0, 8) + s.subrange(9, 13) + s.subrange(14, 18) + s.subrange(19, 23) + s.subrange(24, 36))
    } else {
        None
    }
}

/// The ASCII lower case of a character.
pub open spec fn ascii_lower(c: char) -> char {
    if 65 <= c as int <= 90 {
        (c as int + 32) as char
    } else {
        c
    }
}

/// The 32 digits of a UUID's text in the forms that `uuid::Uuid::parse_str`
/// reads: simple (32 digits), hyphenated, braced (`{..}` round a hyphenated
/// one) and URN (`urn:uuid:`, in any case, before a hyphenated one).
pub open spec fn uuid_digits(s: Seq<char>) -> Option<Seq<char>> {
    if s.len() == 32 {
        Some(s)
    } else if s.len() == 36 {
        unhyphenated(s)
    } else if s.len() == 38 && s[0] == '{' && s[37] == '}' {
        unhyphenated(s.subrange(1, 37))
    } else if s.len() == 45 && s.take(9).map_values(|c: char| ascii_lower(c)) == "urn:uuid:"@ {
        unhyphenated(s.skip(9))
    } else {
        None
    }
}

/// What `uuid::Uuid::parse_str` makes of a string: the UUID whose 32
/// hexadecimal digits (either case) the text holds in one of its forms, or
/// `None`.
pub open spec fn uuid_parse_result(s: Seq<char>) -> Option<u128> {
    match uuid_digits(s) {
        Some(d) => if all_hex(d) {
            Some(hex_number(d) as u128)
        } else {
            None
        },
        None => None,
    }
}

/// Calls `uuid::Uuid::parse_str` and reads the UUID as its 128-bit value
/// (`as_u128`, the big-endian reading of its bytes). The contract claims
/// the crate's parser: the four text forms of [`uuid_digits`], hexadecimal
/// digits in either case, and nothing else.
#[verifier::external_body]
pub fn parse_uuid(s: &str) -> (r: Option<u128>)
    ensures
        r == uuid_parse_result(s@),
{
    uuid::Uuid::parse_str(s).ok().map(|u| u.as_u128())
}

proof fn lemma_hex_char_value(d: int)
    requires
        0 <= d < 16,
    ensures
        hex_value(hex_char(d)) == Some(d as nat),
{
}

proof fn lemma_hex_digits_value(v: nat, k: nat)
    ensures
        all_hex(hex_digits(v, k)),
        hex_number(hex_digits(v, k)) == v % (pow(16, k) as nat),
    decreases k,
{
    reveal(pow);
    lemma_hex_digits_len(v, k);
    if k == 0 {
        assert(pow(16, 0) == 1);
    } else {
        let k1 = (k - 1) as nat;
        let d = hex_digits(v, k);
        let p = hex_digits(v / 16, k1);
        lemma_hex_digits_value(v / 16, k1);
        lemma_hex_char_value((v % 16) as int);
        lemma_hex_digits_len(v / 16, k1);
        assert(d.drop_last() == p);
        assert forall|i: int| 0 <= i < d.len() implies hex_value(#[trigger] d[i]) is Some by {
            if i < d.len() - 1 {
                assert(d[i] == p[i]);
            }
        }
        lemma_pow_positive(16, k1);
        assert(pow(16, k) == 16 * pow(16, k1));
        lemma_mod_breakdown(v as int, 16, pow(16, k1));
    }
}

/// The hyphenated text that [`uuid_to_string`] writes for a UUID reads
/// back, through `uuid`'s parser, as the same UUID.
pub proof fn uuid_text_reads_back(u: u128)
    ensures
        uuid_parse_result(uuid_text(u)) == Some(u),
{
    let h = hex_digits(u as nat, 32);
    lemma_hex_digits_len(u as nat, 32);
    lemma_hex_digits_value(u as nat, 32);
    let t = uuid_text(u);
    assert(t.len() == 36);
    assert(t[8] == '-' && t[13] == '-' && t[18] == '-' && t[23] == '-');
    assert(t.subrange(0, 8) + t.subrange(9, 13) + t.subrange(14, 18) + t.subrange(19, 23) + t.subrange(24, 36) =~= h);
    assert(uuid_digits(t) == Some(h));
    assert(pow(16, 32) == 0x1_0000_0000_0000_0000_0000_0000_0000_0000) by {
        reveal_with_fuel(pow, 33);
    }
    lemma_small_mod(u as nat, pow(16, 32) as nat);
}

} // verus!
