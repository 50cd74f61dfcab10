//! Decimal rendering of integers, as NASM reads an immediate operand.

use vstd::prelude::*;

verus! {

/// The ASCII digit for a value below ten.
pub open spec fn digit_char(d: nat) -> char {
    (48 + d) as char
}

/// The decimal digits of a natural number, most significant first, with no
/// leading zero (zero itself is the single digit `0`).
pub open spec fn digits_of(n: nat) -> Seq<char>
    decreases n,
{
    if n < 10 {
        seq![digit_char(n)]
    } else {
        digits_of(n / 10).push(digit_char(n % 10))
    }
}

/// The decimal text of an integer: a `-` before the digits of its magnitude
/// when it is negative.
pub open spec fn decimal(v: int) -> Seq<char> {
    if v < 0 {
        seq!['-'] + digits_of((-v) as nat)
    } else {
        digits_of(v as nat)
    }
}

/// The value of a string of decimal digits.
pub open spec fn digits_value(s: Seq<char>) -> int
    decreases s.len(),
{
    if s.len() == 0 {
        0
    } else {
        digits_value(s.drop_last()) * 10 + (s.last() as int - 48)
    }
}

/// The value of a decimal text with an optional leading `-`.
pub open spec fn parse_decimal(s: Seq<char>) -> int {
    if s.len() > 0 && s[0] == '-' {
        -digits_value(s.drop_first())
    } else {
        digits_value(s)
    }
}

/// A decimal digit string is read back as the number it was written from,
/// and it never begins with a minus sign.
pub proof fn lemma_digits_round_trip(n: nat)
    ensures
        digits_value(digits_of(n)) == n,
        digits_of(n).len() > 0,
        digits_of(n)[0] != '-',
    decreases n,
{
    let s = digits_of(n);
    if n >= 10 {
        lemma_digits_round_trip(n / 10);
        assert(s.drop_last() =~= digits_of(n / 10));
        assert(s[0] == digits_of(n / 10)[0]);
        assert(digit_char(n % 10) as int == 48 + n % 10);
        assert((n / 10) * 10 + n % 10 == n) by (nonlinear_arith);
        assert(s.last() == digit_char(n % 10));
        assert(digits_value(s.drop_last()) == n / 10);
        assert(digits_value(s) == digits_value(s.drop_last()) * 10 + (s.last() as int - 48));
    } else {
        assert(s.drop_last() =~= Seq::<char>::empty());
        assert(digit_char(n) as int == 48 + n);
        assert(digits_value(s) == digits_value(s.drop_last()) * 10 + (s.last() as int - 48));
    }
}

/// Reading back the decimal text of an integer gives that integer.
pub proof fn lemma_decimal_round_trip(v: int)
    ensures
        parse_decimal(decimal(v)) == v,
{
    if v < 0 {
        lemma_digits_round_trip((-v) as nat);
        assert((seq!['-'] + digits_of((-v) as nat)).drop_first() =~= digits_of((-v) as nat));
    } else {
        lemma_digits_round_trip(v as nat);
    }
}

/// Decimal text holds only digits and a leading minus sign: in particular
/// no line feed.
pub proof fn lemma_decimal_has_no_line_feed(v: int)
    ensures
        !decimal(v).contains('\n'),
{
    if v < 0 {
        lemma_digits_are_digits((-v) as nat);
        let s = seq!['-'] + digits_of((-v) as nat);
        assert forall|i: int| 0 <= i < s.len() implies s[i] != '\n' by {
            if i > 0 {
                assert(s[i] == digits_of((-v) as nat)[i - 1]);
            }
        }
    } else {
        lemma_digits_are_digits(v as nat);
    }
}

proof fn lemma_digits_are_digits(n: nat)
    ensures
        forall|i: int| 0 <= i < digits_of(n).len() ==> #[trigger] digits_of(n)[i] != '\n',
    decreases n,
{
    if n >= 10 {
        lemma_digits_are_digits(n / 10);
        let d = digit_char(n % 10);
        assert(d as int == 48 + n % 10);
        assert(d != '\n');
        assert forall|i: int| 0 <= i < digits_of(n).len() implies #[trigger] digits_of(n)[i] != '\n' by {
            if i < digits_of(n / 10).len() {
                assert(digits_of(n)[i] == digits_of(n / 10)[i]);
            }
        }
    } else {
        assert(digit_char(n) as int == 48 + n);
        assert(digit_char(n) != '\n');
    }
}

/// An ASCII decimal digit.
pub open spec fn is_digit(c: char) -> bool {
    48 <= c as int <= 57
}

/// `s` is how a natural number `n` is written in decimal: one or more ASCII
/// digits, without a leading zero unless it is the single digit `0`, whose
/// value is `n`.
pub open spec fn canonical_digits(s: Seq<char>, n: int) -> bool {
    &&& s.len() > 0
    &&& forall|i: int| 0 <= i < s.len() ==> is_digit(#[trigger] s[i])
    &&& s.len() > 1 ==> s[0] != '0'
    &&& digits_value(s) == n
}

/// `s` is how an integer `v` is written in decimal, as Rust displays it: the
/// digits of its magnitude, after a single `-` when it is negative.
pub open spec fn canonical_decimal(s: Seq<char>, v: int) -> bool {
    if v < 0 {
        s.len() > 0 && s[0] == '-' && canonical_digits(s.drop_first(), -v)
    } else {
        canonical_digits(s, v)
    }
}

/// The digits written for a natural number are its canonical decimal text.
pub proof fn lemma_digits_canonical(n: nat)
    ensures
        canonical_digits(digits_of(n), n as int),
        n >= 1 ==> digits_of(n)[0] != '0',
    decreases n,
{
    lemma_digits_round_trip(n);
    let s = digits_of(n);
    if n >= 10 {
        lemma_digits_canonical(n / 10);
        let d = digit_char(n % 10);
        assert(d as int == 48 + n % 10);
        assert(s[0] == digits_of(n / 10)[0]);
        assert forall|i: int| 0 <= i < s.len() implies is_digit(#[trigger] s[i]) by {
            if i < digits_of(n / 10).len() {
                assert(s[i] == digits_of(n / 10)[i]);
            }
        }
    } else {
        assert(digit_char(n) as int == 48 + n);
        assert(('0' as int) == 48);
    }
}

/// A natural number has one canonical decimal text only.
pub proof fn lemma_canonical_digits_unique(s: Seq<char>, t: Seq<char>, n: int)
    requires
        canonical_digits(s, n),
        canonical_digits(t, n),
    ensures
        s == t,
    decreases s.len(),
{
    assert(('0' as int) == 48);
    let ds = s.last() as int - 48;
    let dt = t.last() as int - 48;
    assert(is_digit(s[s.len() - 1]));
    assert(is_digit(t[t.len() - 1]));
    let ps = s.drop_last();
    let pt = t.drop_last();
    assert(digits_value(s) == digits_value(ps) * 10 + ds);
    assert(digits_value(t) == digits_value(pt) * 10 + dt);
    lemma_digits_value_nonneg(ps);
    lemma_digits_value_nonneg(pt);
    assert(ds == dt && digits_value(ps) == digits_value(pt)) by (nonlinear_arith)
        requires
            digits_value(ps) * 10 + ds == digits_value(pt) * 10 + dt,
            0 <= ds < 10,
            0 <= dt < 10,
            digits_value(ps) >= 0,
            digits_value(pt) >= 0,
    ;
    assert(s.last() == t.last());
    if ps.len() > 0 && pt.len() > 0 {
        assert forall|i: int| 0 <= i < ps.len() implies is_digit(#[trigger] ps[i]) by {
            assert(ps[i] == s[i]);
        }
        assert forall|i: int| 0 <= i < pt.len() implies is_digit(#[trigger] pt[i]) by {
            assert(pt[i] == t[i]);
        }
        lemma_canonical_digits_unique(ps, pt, digits_value(ps));
        assert(s =~= ps.push(s.last()));
        assert(t =~= pt.push(t.last()));
    } else if ps.len() == 0 && pt.len() == 0 {
        assert(s =~= t);
    } else if ps.len() > 0 {
        lemma_leading_digit_positive(ps);
        assert(ps[0] == s[0]);
    } else {
        lemma_leading_digit_positive(pt);
        assert(pt[0] == t[0]);
    }
}

proof fn lemma_digits_value_nonneg(s: Seq<char>)
    requires
        forall|i: int| 0 <= i < s.len() ==> is_digit(#[trigger] s[i]),
    ensures
        digits_value(s) >= 0,
    decreases s.len(),
{
    if s.len() > 0 {
        assert forall|i: int| 0 <= i < s.drop_last().len() implies is_digit(#[trigger] s.drop_last()[i]) by {
            assert(s.drop_last()[i] == s[i]);
        }
        lemma_digits_value_nonneg(s.drop_last());
        assert(is_digit(s[s.len() - 1]));
    }
}

/// Digits that begin with a digit other than zero have a positive value.
proof fn lemma_leading_digit_positive(s: Seq<char>)
    requires
        s.len() > 0,
        s[0] != '0',
        forall|i: int| 0 <= i < s.len() ==> is_digit(#[trigger] s[i]),
    ensures
        digits_value(s) >= 1,
    decreases s.len(),
{
    assert(('0' as int) == 48);
    assert(is_digit(s[0]));
    if s.len() == 1 {
        assert(s.drop_last() =~= Seq::<char>::empty());
        assert(s.last() == s[0]);
        assert(s[0] as int != 48);
        assert(digits_value(s) == digits_value(s.drop_last()) * 10 + (s.last() as int - 48));
    } else {
        let p = s.drop_last();
        assert forall|i: int| 0 <= i < p.len() implies is_digit(#[trigger] p[i]) by {
            assert(p[i] == s[i]);
        }
        assert(p[0] == s[0]);
        lemma_leading_digit_positive(p);
        assert(is_digit(s[s.len() - 1]));
        let d = s.last() as int - 48;
        assert(digits_value(s) == digits_value(p) * 10 + d);
        assert(digits_value(p) * 10 + d >= 1) by (nonlinear_arith)
            requires
                digits_value(p) >= 1,
                d >= 0,
        ;
    }
}

/// The text written for an integer is its canonical decimal text, and it is
/// the only text that is: what is written for `v` is exactly how Rust
/// displays `v`.
pub proof fn lemma_decimal_canonical(v: int)
    ensures
        canonical_decimal(decimal(v), v),
        forall|s: Seq<char>| canonical_decimal(s, v) ==> s == decimal(v),
{
    if v < 0 {
        lemma_digits_canonical((-v) as nat);
        let d = decimal(v);
        assert(d.drop_first() =~= digits_of((-v) as nat));
        assert forall|s: Seq<char>| canonical_decimal(s, v) implies s == decimal(v) by {
            lemma_canonical_digits_unique(s.drop_first(), digits_of((-v) as nat), -v);
            assert(s =~= seq!['-'] + s.drop_first());
        }
    } else {
        lemma_digits_canonical(v as nat);
        assert forall|s: Seq<char>| canonical_decimal(s, v) implies s == decimal(v) by {
            lemma_canonical_digits_unique(s, digits_of(v as nat), v);
        }
    }
}

/// The one-character string literal for a decimal digit.
fn digit_str(d: u32) -> (s: &'static str)
    requires
        d < 10,
    ensures
        s@ == seq![digit_char(d as nat)],
{
    proof {
        reveal_strlit("0");
        reveal_strlit("1");
        reveal_strlit("2");
        reveal_strlit("3");
        reveal_strlit("4");
        reveal_strlit("5");
        reveal_strlit("6");
        reveal_strlit("7");
        reveal_strlit("8");
        reveal_strlit("9");
    }
    match d {
        0 => "0",
        1 => "1",
        2 => "2",
        3 => "3",
        4 => "4",
        5 => "5",
        6 => "6",
        7 => "7",
        8 => "8",
        _ => "9",
    }
}

/// Appends the decimal digits of `n` to `out`.
pub fn append_digits(out: &mut String, n: u32)
    ensures
        final(out)@ == old(out)@ + digits_of(n as nat),
        canonical_digits(final(out)@.skip(old(out)@.len() as int), n as int),
    decreases n,
{
    if n >= 10 {
        append_digits(out, n / 10);
    }
    let s = digit_str(n % 10);
    out.append(s);
    proof {
        if n >= 10 {
            assert(digits_of(n as nat) == digits_of((n / 10) as nat).push(digit_char((n % 10) as nat)));
        }
    }
    assert(out@ =~= old(out)@ + digits_of(n as nat));
    proof {
        lemma_digits_canonical(n as nat);
        assert(out@.skip(old(out)@.len() as int) =~= digits_of(n as nat));
    }
}

/// Appends the decimal text of a signed 32-bit value to `out`.
pub fn append_decimal(out: &mut String, v: i32)
    ensures
        final(out)@ == old(out)@ + decimal(v as int),
        canonical_decimal(final(out)@.skip(old(out)@.len() as int), v as int),
{
    if v < 0 {
        proof {
            reveal_strlit("-");
        }
        out.append("-");
        let magnitude: u32 = (0i64 - v as i64) as u32;
        append_digits(out, magnitude);
        assert(out@ =~= old(out)@ + decimal(v as int));
    } else {
        append_digits(out, v as u32);
    }
    proof {
        lemma_decimal_canonical(v as int);
        assert(out@.skip(old(out)@.len() as int) =~= decimal(v as int));
    }
}

} // verus!
