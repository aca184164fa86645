use vstd::prelude::*;

use crate::text::push_char;

verus! {

/// The ASCII character of a decimal digit.
pub open spec fn digit_char_of(d: nat) -> char {
    ((d + 48) as u8) as char
}

/// The shortest decimal rendering of a natural number (no sign, no
/// leading zeros; zero is rendered as `"0"`).
pub open spec fn decimal_text(n: nat) -> Seq<char>
    decreases n,
{
    if n < 10 {
        seq![digit_char_of(n)]
    } else {
        decimal_text(n / 10) + seq![digit_char_of(n % 10)]
    }
}

/// Appends the decimal rendering of `n` to `s`.
pub fn push_decimal(s: &mut String, n: usize)
    ensures
        final(s)@ == old(s)@ + decimal_text(n as nat),
    decreases n,
{
    if n >= 10 {
        push_decimal(s, n / 10);
    }
    let d = (n % 10) as u8;
    push_char(s, (d + 48) as char);
    assert(s@ =~= old(s)@ + decimal_text(n as nat));
}

/// The decimal rendering of `n`, as `format!("{}", n)` gives it.
pub fn decimal(n: usize) -> (res: String)
    ensures
        res@ == decimal_text(n as nat),
        digits_value(res@) == n,
        res@.len() >= 1,
        forall|i: int| 0 <= i < res@.len() ==> 48 <= #[trigger] res@[i] as int <= 57,
        res@[0] as int == 48 ==> n == 0 && res@.len() == 1,
{
    let mut s = String::new();
    push_decimal(&mut s, n);
    proof { law_decimal_denotes_number(n as nat); }
    assert(s@ =~= decimal_text(n as nat));
    s
}

/// The number a sequence of decimal digits denotes.
pub open spec fn digits_value(s: Seq<char>) -> int
    decreases s.len(),
{
    if s.len() == 0 {
        0
    } else {
        digits_value(s.drop_last()) * 10 + (s.last() as int - 48)
    }
}

/// The decimal rendering of a number consists of decimal digits only,
/// denotes that number, and has no leading zero (only zero itself is
/// rendered starting with `0`, as the single digit `0`).
pub proof fn law_decimal_denotes_number(n: nat)
    ensures
        decimal_text(n).len() >= 1,
        forall|i: int| 0 <= i < decimal_text(n).len() ==> 48 <= #[trigger] decimal_text(n)[i] as int <= 57,
        digits_value(decimal_text(n)) == n,
        decimal_text(n)[0] as int == 48 ==> n == 0 && decimal_text(n).len() == 1,
    decreases n,
{
    if n < 10 {
        assert(decimal_text(n) == seq![digit_char_of(n)]);
        assert(seq![digit_char_of(n)].drop_last() =~= Seq::<char>::empty());
        assert(digit_char_of(n) as int == n + 48);
        assert(digits_value(Seq::<char>::empty()) == 0);
        assert(seq![digit_char_of(n)].last() == digit_char_of(n));
    } else {
        let q = n / 10;
        let d = n % 10;
        law_decimal_denotes_number(q);
        let t = decimal_text(q) + seq![digit_char_of(d)];
        assert(decimal_text(n) == t);
        assert(t.drop_last() =~= decimal_text(q));
        assert(t.last() == digit_char_of(d));
        assert(digit_char_of(d) as int == d + 48);
        assert(n == q * 10 + d) by (nonlinear_arith) requires q == n / 10, d == n % 10;
        assert(q >= 1);
        assert forall|i: int| 0 <= i < t.len() implies 48 <= #[trigger] t[i] as int <= 57 by {
            if i < decimal_text(q).len() {
                assert(t[i] == decimal_text(q)[i]);
            }
        }
        assert(t[0] == decimal_text(q)[0]);
    }
}

} // verus!
