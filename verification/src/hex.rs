use vstd::prelude::*;

use crate::text::push_char;

verus! {

/// The lower-case hexadecimal digit for a value below 16.
pub open spec fn hex_digit(n: int) -> char {
    if n < 10 {
        ((n + 48) as u8) as char
    } else {
        ((n - 10 + 97) as u8) as char
    }
}

/// Two lower-case hexadecimal digits per byte, most significant nibble
/// first, with no separator.
pub open spec fn hex_text(bytes: Seq<u8>) -> Seq<char>
    decreases bytes.len(),
{
    if bytes.len() == 0 {
        seq![]
    } else {
        hex_text(bytes.drop_last()) + seq![
            hex_digit(bytes.last() as int / 16),
            hex_digit(bytes.last() as int % 16),
        ]
    }
}

fn digit_char(n: u8) -> (c: char)
    requires
        n < 16,
    ensures
        c == hex_digit(n as int),
{
    if n < 10 {
        (n + 48) as char
    } else {
        (n - 10 + 97) as char
    }
}

/// Renders a byte buffer as lower-case hexadecimal text, two digits per
/// byte (`[0xbe, 0x0f]` becomes `"be0f"`).
pub fn hex_dump(buf: &[u8]) -> (res: String)
    ensures
        res@ == hex_text(buf@),
        res@.len() == 2 * buf@.len(),
        forall|i: int| 0 <= i < buf@.len() ==> {
            &&& is_lower_hex_digit(#[trigger] res@[2 * i])
            &&& is_lower_hex_digit(res@[2 * i + 1])
            &&& lower_hex_value(res@[2 * i]) * 16 + lower_hex_value(res@[2 * i + 1]) == buf@[i]
        },
{
    let mut res = String::new();
    let mut i: usize = 0;
    while i < buf.len()
        invariant
            i <= buf@.len(),
            res@ == hex_text(buf@.take(i as int)),
            res@.len() == 2 * i,
        decreases buf@.len() - i,
    {
        let b = buf[i];
        push_char(&mut res, digit_char(b / 16));
        push_char(&mut res, digit_char(b % 16));
        assert(buf@.take(i + 1).drop_last() =~= buf@.take(i as int));
        i = i + 1;
    }
    assert(buf@.take(buf@.len() as int) =~= buf@);
    proof { law_hex_digits_encode_bytes(buf@); }
    res
}

/// Whether a character is a lower-case hexadecimal digit.
pub open spec fn is_lower_hex_digit(c: char) -> bool {
    (48 <= c as int <= 57) || (97 <= c as int <= 102)
}

/// The value of a lower-case hexadecimal digit.
pub open spec fn lower_hex_value(c: char) -> int {
    if c as int <= 57 {
        c as int - 48
    } else {
        c as int - 87
    }
}

proof fn lemma_hex_text_at(bytes: Seq<u8>, i: int)
    requires
        0 <= i < bytes.len(),
    ensures
        hex_text(bytes).len() == 2 * bytes.len(),
        hex_text(bytes)[2 * i] == hex_digit(bytes[i] as int / 16),
        hex_text(bytes)[2 * i + 1] == hex_digit(bytes[i] as int % 16),
    decreases bytes.len(),
{
    lemma_hex_text_len(bytes);
    let pre = bytes.drop_last();
    lemma_hex_text_len(pre);
    if i < bytes.len() - 1 {
        lemma_hex_text_at(pre, i);
    }
}

proof fn lemma_hex_text_len(bytes: Seq<u8>)
    ensures
        hex_text(bytes).len() == 2 * bytes.len(),
    decreases bytes.len(),
{
    if bytes.len() > 0 {
        lemma_hex_text_len(bytes.drop_last());
    }
}

/// The hex rendering of a buffer has two characters for each byte, in
/// order; both are lower-case hexadecimal digits, and the first times
/// sixteen plus the second is the byte.
pub proof fn law_hex_digits_encode_bytes(bytes: Seq<u8>)
    ensures
        hex_text(bytes).len() == 2 * bytes.len(),
        forall|i: int| 0 <= i < bytes.len() ==> {
            &&& is_lower_hex_digit(#[trigger] hex_text(bytes)[2 * i])
            &&& is_lower_hex_digit(hex_text(bytes)[2 * i + 1])
            &&& lower_hex_value(hex_text(bytes)[2 * i]) * 16 + lower_hex_value(hex_text(bytes)[2 * i + 1]) == bytes[i]
        },
{
    lemma_hex_text_len(bytes);
    assert forall|i: int| 0 <= i < bytes.len() implies {
        &&& is_lower_hex_digit(#[trigger] hex_text(bytes)[2 * i])
        &&& is_lower_hex_digit(hex_text(bytes)[2 * i + 1])
        &&& lower_hex_value(hex_text(bytes)[2 * i]) * 16 + lower_hex_value(hex_text(bytes)[2 * i + 1]) == bytes[i]
    } by {
        lemma_hex_text_at(bytes, i);
        let b = bytes[i] as int;
        assert(b == (b / 16) * 16 + b % 16 && 0 <= b / 16 < 16 && 0 <= b % 16 < 16) by (nonlinear_arith)
            requires 0 <= b < 256;
    }
}

} // verus!
