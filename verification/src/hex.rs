//! Lowercase hexadecimal rendering of bytes.

use vstd::prelude::*;
use vstd::string::*;

verus! {

/// The hexadecimal digit for a value below sixteen.
pub open spec fn hex_digit(n: int) -> char {
    "0123456789abcdef"@[n]
}

/// The character that stands at position `i` of the rendering of `bytes`:
/// the high half of a byte comes first, then its low half.
pub open spec fn hex_char_at(bytes: Seq<u8>, i: int) -> char {
    if i % 2 == 0 {
        hex_digit(bytes[i / 2] as int / 16)
    } else {
        hex_digit(bytes[i / 2] as int % 16)
    }
}

/// Two lowercase hexadecimal digits for each byte, in the order of the bytes.
pub open spec fn hex_lower(bytes: Seq<u8>) -> Seq<char> {
    Seq::new(2 * bytes.len(), |i: int| hex_char_at(bytes, i))
}

/// Rendering one byte more appends that byte's two digits.
pub proof fn lemma_hex_lower_push(bytes: Seq<u8>, b: u8)
    ensures
        hex_lower(bytes.push(b)) == hex_lower(bytes) + seq![
            hex_digit(b as int / 16),
            hex_digit(b as int % 16),
        ],
{
    let whole = hex_lower(bytes.push(b));
    let parts = hex_lower(bytes) + seq![hex_digit(b as int / 16), hex_digit(b as int % 16)];
    assert(whole.len() == parts.len());
    assert forall|i: int| 0 <= i < whole.len() implies whole[i] == parts[i] by {
        if i < 2 * bytes.len() {
            assert(bytes.push(b)[i / 2] == bytes[i / 2]);
        } else {
            assert(i / 2 == bytes.len());
            assert(bytes.push(b)[i / 2] == b);
        }
    }
    assert(whole =~= parts);
}

/// The sixteen digits differ from one another.
pub proof fn lemma_hex_digit_injective(m: int, n: int)
    requires
        0 <= m < 16,
        0 <= n < 16,
        hex_digit(m) == hex_digit(n),
    ensures
        m == n,
{
    reveal_strlit("0123456789abcdef");
}

/// The rendering tells the bytes: two byte strings with the same rendering
/// are the same.
pub proof fn lemma_hex_lower_injective(one: Seq<u8>, other: Seq<u8>)
    requires
        hex_lower(one) == hex_lower(other),
    ensures
        one == other,
{
    assert(2 * one.len() == hex_lower(one).len() == 2 * other.len());
    assert forall|i: int| 0 <= i < one.len() implies one[i] == other[i] by {
        assert(hex_lower(one)[2 * i] == hex_char_at(one, 2 * i));
        assert(hex_lower(one)[2 * i + 1] == hex_char_at(one, 2 * i + 1));
        assert(hex_lower(other)[2 * i] == hex_char_at(other, 2 * i));
        assert(hex_lower(other)[2 * i + 1] == hex_char_at(other, 2 * i + 1));
        assert((2 * i) / 2 == i && (2 * i + 1) / 2 == i);
        assert((2 * i) % 2 == 0 && (2 * i + 1) % 2 == 1);
        lemma_hex_digit_injective(one[i] as int / 16, other[i] as int / 16);
        lemma_hex_digit_injective(one[i] as int % 16, other[i] as int % 16);
    }
    assert(one =~= other);
}

/// Renders `bytes` as lowercase hexadecimal text.
pub fn to_hex(bytes: &[u8]) -> (text: String)
    ensures
        text@ == hex_lower(bytes@),
{
    let digits = "0123456789abcdef";
    proof {
        reveal_strlit("0123456789abcdef");
    }
    let mut text = String::new();
    let mut i: usize = 0;
    while i < bytes.len()
        invariant
            i <= bytes.len(),
            digits@ == "0123456789abcdef"@,
            digits@.len() == 16,
            digits.is_ascii(),
            text@ == hex_lower(bytes@.take(i as int)),
        decreases bytes.len() - i,
    {
        let b: u8 = bytes[i];
        let high: usize = (b / 16) as usize;
        let low: usize = (b % 16) as usize;
        text.append(digits.substring_ascii(high, high + 1));
        text.append(digits.substring_ascii(low, low + 1));
        proof {
            lemma_hex_lower_push(bytes@.take(i as int), b);
            assert(bytes@.take(i as int).push(b) =~= bytes@.take(i + 1));
            assert(digits@.subrange(high as int, high + 1) =~= seq![hex_digit(b as int / 16)]);
            assert(digits@.subrange(low as int, low + 1) =~= seq![hex_digit(b as int % 16)]);
        }
        i += 1;
    }
    proof {
        assert(bytes@.take(i as int) =~= bytes@);
    }
    text
}

} // verus!
