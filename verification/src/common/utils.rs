use vstd::prelude::*;
use crate::text::{decimal_digit, is_decimal_digit, push_char};

verus! {

/// The decimal digits of `s`, in order, with every other character dropped.
pub open spec fn digits_of(s: Seq<char>) -> Seq<char>
    decreases s.len(),
{
    if s.len() == 0 {
        Seq::empty()
    } else if is_decimal_digit(s.last()) {
        digits_of(s.drop_last()).push(s.last())
    } else {
        digits_of(s.drop_last())
    }
}

/// `d` written in groups of three counted from the right, the groups joined by
/// single spaces: "1234567" becomes "1 234 567".
pub open spec fn group_thousands(d: Seq<char>) -> Seq<char>
    decreases d.len(),
{
    if d.len() <= 3 {
        d
    } else {
        group_thousands(d.take(d.len() - 3)) + seq![' '] + d.skip(d.len() - 3)
    }
}

/// `r` cut into groups of three from the left, joined by single spaces; this
/// is the grouping built while walking the digits from the last to the first.
pub open spec fn group_from_left(r: Seq<char>) -> Seq<char>
    decreases r.len(),
{
    if r.len() <= 3 {
        r
    } else {
        r.take(3) + seq![' '] + group_from_left(r.skip(3))
    }
}

proof fn lemma_group_from_left_push(s: Seq<char>, c: char)
    ensures
        s.len() > 0 && s.len() % 3 == 0 ==> group_from_left(s.push(c)) == group_from_left(s) + seq![' ', c],
        !(s.len() > 0 && s.len() % 3 == 0) ==> group_from_left(s.push(c)) == group_from_left(s).push(c),
    decreases s.len(),
{
    if s.len() < 3 {
    } else if s.len() == 3 {
        assert(s.push(c).take(3) == s);
        assert(s.push(c).skip(3) == seq![c]);
        assert(group_from_left(seq![c]) == seq![c]);
        assert(group_from_left(s.push(c)) == s + seq![' '] + seq![c]);
        assert(s + seq![' '] + seq![c] == s + seq![' ', c]);
    } else {
        let t = s.skip(3);
        assert(s.push(c).take(3) == s.take(3));
        assert(s.push(c).skip(3) == t.push(c));
        lemma_group_from_left_push(t, c);
        assert(t.len() % 3 == s.len() % 3);
        if s.len() % 3 == 0 {
            assert(s.take(3) + seq![' '] + (group_from_left(t) + seq![' ', c])
                == s.take(3) + seq![' '] + group_from_left(t) + seq![' ', c]);
        } else {
            assert(s.take(3) + seq![' '] + group_from_left(t).push(c)
                == (s.take(3) + seq![' '] + group_from_left(t)).push(c));
        }
    }
}

proof fn lemma_reverse_add(x: Seq<char>, y: Seq<char>)
    ensures
        (x + y).reverse() == y.reverse() + x.reverse(),
{
    assert((x + y).reverse() =~= y.reverse() + x.reverse());
}

proof fn lemma_reverse_reverse(x: Seq<char>)
    ensures
        x.reverse().reverse() == x,
{
    assert(x.reverse().reverse() =~= x);
}

proof fn lemma_group_thousands_by_reversal(d: Seq<char>)
    ensures
        group_thousands(d) == group_from_left(d.reverse()).reverse(),
    decreases d.len(),
{
    if d.len() <= 3 {
        lemma_reverse_reverse(d);
    } else {
        let n = d.len();
        let a = d.take(n - 3);
        let b = d.skip(n - 3);
        assert(d == a + b);
        lemma_reverse_add(a, b);
        let rd = d.reverse();
        assert(rd == b.reverse() + a.reverse());
        assert(rd.take(3) == b.reverse());
        assert(rd.skip(3) == a.reverse());
        lemma_group_thousands_by_reversal(a);
        let g = group_from_left(a.reverse());
        assert(group_from_left(rd) == b.reverse() + seq![' '] + g);
        lemma_reverse_add(b.reverse() + seq![' '], g);
        lemma_reverse_add(b.reverse(), seq![' ']);
        lemma_reverse_reverse(b);
        assert(seq![' '].reverse() =~= seq![' ']);
    }
}

proof fn lemma_digits_of_add(x: Seq<char>, y: Seq<char>)
    ensures
        digits_of(x + y) == digits_of(x) + digits_of(y),
    decreases y.len(),
{
    if y.len() == 0 {
        assert(x + y == x);
        assert(digits_of(x) + digits_of(y) == digits_of(x));
    } else {
        lemma_digits_of_add(x, y.drop_last());
        assert((x + y).drop_last() == x + y.drop_last());
        assert((x + y).last() == y.last());
        if is_decimal_digit(y.last()) {
            assert(digits_of(x) + digits_of(y.drop_last()).push(y.last())
                == (digits_of(x) + digits_of(y.drop_last())).push(y.last()));
        }
    }
}

proof fn lemma_digits_of_all_digits(d: Seq<char>)
    requires
        forall|i: int| 0 <= i < d.len() ==> is_decimal_digit(#[trigger] d[i]),
    ensures
        digits_of(d) == d,
    decreases d.len(),
{
    if d.len() > 0 {
        lemma_digits_of_all_digits(d.drop_last());
        assert(d.drop_last().push(d.last()) == d);
    }
}

proof fn lemma_digits_of_group_thousands(d: Seq<char>)
    ensures
        digits_of(group_thousands(d)) == digits_of(d),
    decreases d.len(),
{
    if d.len() > 3 {
        let a = d.take(d.len() - 3);
        let b = d.skip(d.len() - 3);
        assert(d == a + b);
        lemma_digits_of_group_thousands(a);
        lemma_digits_of_add(group_thousands(a) + seq![' '], b);
        lemma_digits_of_add(group_thousands(a), seq![' ']);
        lemma_digits_of_add(a, b);
        assert(seq![' '].drop_last() == Seq::<char>::empty());
        assert(digits_of(Seq::<char>::empty()) == Seq::<char>::empty());
        assert(!is_decimal_digit(seq![' '].last()));
        assert(digits_of(seq![' ']) == Seq::<char>::empty());
        assert(digits_of(group_thousands(a)) + Seq::<char>::empty() == digits_of(group_thousands(a)));
    }
}

proof fn lemma_digits_of_only_digits(s: Seq<char>)
    ensures
        forall|i: int| 0 <= i < digits_of(s).len() ==> is_decimal_digit(#[trigger] digits_of(s)[i]),
    decreases s.len(),
{
    if s.len() > 0 {
        lemma_digits_of_only_digits(s.drop_last());
        let p = digits_of(s.drop_last());
        if is_decimal_digit(s.last()) {
            assert forall|i: int| 0 <= i < p.push(s.last()).len() implies is_decimal_digit(
                #[trigger] p.push(s.last())[i],
            ) by {
                if i < p.len() {
                    assert(p.push(s.last())[i] == p[i]);
                }
            }
        }
    }
}

proof fn lemma_group_thousands_chars(d: Seq<char>)
    requires
        forall|i: int| 0 <= i < d.len() ==> is_decimal_digit(#[trigger] d[i]),
    ensures
        forall|i: int|
            0 <= i < group_thousands(d).len() ==> is_decimal_digit(#[trigger] group_thousands(d)[i])
                || group_thousands(d)[i] == ' ',
    decreases d.len(),
{
    if d.len() > 3 {
        let a = d.take(d.len() - 3);
        lemma_group_thousands_chars(a);
        let g = group_thousands(d);
        let ga = group_thousands(a);
        assert forall|i: int| 0 <= i < g.len() implies is_decimal_digit(#[trigger] g[i]) || g[i] == ' ' by {
            if i < ga.len() {
                assert(g[i] == ga[i]);
            } else if i > ga.len() {
                assert(g[i] == d[i - ga.len() - 1 + d.len() - 3]);
            }
        }
    }
}

/// The formatted number holds exactly the digits of the input, in order,
/// and nothing but digits and spaces.
pub proof fn format_number_keeps_digits(s: Seq<char>)
    ensures
        digits_of(group_thousands(digits_of(s))) == digits_of(s),
        forall|i: int|
            0 <= i < group_thousands(digits_of(s)).len() ==> is_decimal_digit(
                #[trigger] group_thousands(digits_of(s))[i],
            ) || group_thousands(digits_of(s))[i] == ' ',
{
    lemma_digits_of_group_thousands(digits_of(s));
    lemma_digits_of_only_digits(s);
    lemma_digits_of_all_digits(digits_of(s));
    lemma_group_thousands_chars(digits_of(s));
}

/// Formatting an already formatted number changes nothing.
pub proof fn format_number_idempotent(s: Seq<char>)
    ensures
        group_thousands(digits_of(group_thousands(digits_of(s)))) == group_thousands(digits_of(s)),
{
    format_number_keeps_digits(s);
}

/// Keeps the decimal digits of `input` and writes them in groups of three
/// counted from the right, separated by single spaces.
pub fn format_number_with_spaces(input: &str) -> (r: String)
    ensures
        r@ == group_thousands(digits_of(input@)),
{
    let n = input.unicode_len();
    let mut digits: Vec<char> = Vec::new();
    let mut i: usize = 0;
    while i < n
        invariant
            n == input@.len(),
            i <= n,
            digits@ == digits_of(input@.take(i as int)),
        decreases n - i,
    {
        let c = input.get_char(i);
        assert(input@.take(i as int + 1).drop_last() == input@.take(i as int));
        if decimal_digit(c) {
            digits.push(c);
        }
        i = i + 1;
    }
    assert(input@.take(n as int) == input@);
    let ghost rd = digits@.reverse();
    let mut grouped: Vec<char> = Vec::new();
    let mut counter: usize = 0;
    let mut k: usize = 0;
    let len = digits.len();
    while k < len
        invariant
            len == digits@.len(),
            rd == digits@.reverse(),
            k <= len,
            grouped@ == group_from_left(rd.take(k as int)),
            counter == (if k == 0 { 0 } else { ((k - 1) % 3 + 1) as int }),
        decreases len - k,
    {
        let c = digits[len - 1 - k];
        assert(rd[k as int] == c);
        assert(rd.take(k as int + 1) == rd.take(k as int).push(c));
        proof {
            lemma_group_from_left_push(rd.take(k as int), c);
        }
        if counter == 3 {
            grouped.push(' ');
            counter = 0;
        }
        grouped.push(c);
        counter = counter + 1;
        k = k + 1;
    }
    assert(rd.take(len as int) == rd);
    let mut out = String::new();
    let glen = grouped.len();
    let mut j: usize = 0;
    while j < glen
        invariant
            glen == grouped@.len(),
            j <= glen,
            out@ == grouped@.reverse().take(j as int),
        decreases glen - j,
    {
        push_char(&mut out, grouped[glen - 1 - j]);
        assert(grouped@.reverse().take(j as int + 1) == grouped@.reverse().take(j as int).push(grouped@[glen - 1 - j]));
        j = j + 1;
    }
    assert(grouped@.reverse().take(glen as int) == grouped@.reverse());
    proof {
        lemma_group_thousands_by_reversal(digits@);
    }
    out
}

} // verus!
