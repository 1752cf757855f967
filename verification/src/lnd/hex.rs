//! Lowercase hexadecimal encoding of raw bytes.

use vstd::prelude::*;
use vstd::string::StringExecFns;

verus! {

/// The sixteen lowercase hexadecimal digits, in order of their value.
pub open spec fn hex_digits() -> Seq<char> {
    seq!['0', '1', '2', '3', '4', '5', '6', '7', '8', '9', 'a', 'b', 'c', 'd', 'e', 'f']
}

/// The digit that stands for a value below sixteen.
pub open spec fn hex_digit(n: int) -> char
    recommends
        0 <= n < 16,
{
    hex_digits()[n]
}

/// The two digits of one byte: the high half first.
pub open spec fn hex_pair(b: u8) -> Seq<char> {
    seq![hex_digit(b as int / 16), hex_digit(b as int % 16)]
}

/// The encoding of a byte string: each byte's two digits, in order, with
/// nothing between them.
pub open spec fn hex_encode(bytes: Seq<u8>) -> Seq<char> {
    Seq::new(
        2 * bytes.len(),
        |i: int| hex_digit(if i % 2 == 0 { bytes[i / 2] as int / 16 } else { bytes[i / 2] as int % 16 }),
    )
}

/// Whether a character is one of `0`..`9` or `a`..`f`.
pub open spec fn is_lower_hex(c: char) -> bool {
    ('0' <= c && c <= '9') || ('a' <= c && c <= 'f')
}

/// Whether a text consists of lowercase hexadecimal characters only.
pub open spec fn is_lower_hex_text(text: Seq<char>) -> bool {
    forall|i: int| 0 <= i < text.len() ==> is_lower_hex(#[trigger] text[i])
}

/// One digit as a string slice.
fn digit_str(n: u8) -> (s: &'static str)
    requires
        n < 16,
    ensures
        s@ == seq![hex_digit(n as int)],
{
    proof {
        reveal_strlit("0");
        reveal_strlit("1");
        reveal_strlit("2");
        reveal_strlit("3");
        reveal_strlit("4");
        reveal_strlit("5");
        reveal_strlit("6");
        reveal_strlit("7");
        reveal_strlit("8");
        reveal_strlit("9");
        reveal_strlit("a");
        reveal_strlit("b");
        reveal_strlit("c");
        reveal_strlit("d");
        reveal_strlit("e");
        reveal_strlit("f");
    }
    let s = match n {
        0 => "0",
        1 => "1",
        2 => "2",
        3 => "3",
        4 => "4",
        5 => "5",
        6 => "6",
        7 => "7",
        8 => "8",
        9 => "9",
        10 => "a",
        11 => "b",
        12 => "c",
        13 => "d",
        14 => "e",
        _ => "f",
    };
    assert(s@ =~= seq![hex_digit(n as int)]);
    s
}

/// Encodes `bytes` as lowercase hexadecimal text: two digits for each byte,
/// the high half first, nothing between them.
pub fn buffer_as_hex(bytes: Vec<u8>) -> (text: String)
    ensures
        text@ == hex_encode(bytes@),
        text@.len() == 2 * bytes@.len(),
        is_lower_hex_text(text@),
{
    let mut text = String::new();
    let mut i: usize = 0;
    while i < bytes.len()
        invariant
            i <= bytes.len(),
            text@ == hex_encode(bytes@.take(i as int)),
        decreases bytes.len() - i,
    {
        let b: u8 = bytes[i];
        let ghost before = text@;
        text.append(digit_str(b / 16));
        text.append(digit_str(b % 16));
        proof {
            let next = bytes@.take(i as int + 1);
            let prev = bytes@.take(i as int);
            assert(text@ =~= before + hex_pair(b));
            assert forall|k: int| 0 <= k < 2 * next.len() implies #[trigger] text@[k] == hex_encode(
                next,
            )[k] by {
                if k < 2 * i {
                    assert(prev[k / 2] == next[k / 2]);
                }
            }
            assert(text@ =~= hex_encode(next));
        }
        i = i + 1;
    }
    proof {
        assert(bytes@.take(bytes.len() as int) =~= bytes@);
        lemma_hex_encode_lowercase(bytes@);
    }
    text
}

/// The encoding is twice as long as the input.
pub proof fn lemma_hex_encode_len(bytes: Seq<u8>)
    ensures
        hex_encode(bytes).len() == 2 * bytes.len(),
{
}

/// Every character of an encoding is a digit or a letter from `a` to `f`:
/// no upper case, no separator.
pub proof fn lemma_hex_encode_lowercase(bytes: Seq<u8>)
    ensures
        is_lower_hex_text(hex_encode(bytes)),
{
    assert forall|i: int| 0 <= i < hex_encode(bytes).len() implies is_lower_hex(
        #[trigger] hex_encode(bytes)[i],
    ) by {
        let b = bytes[i / 2] as int;
        let n = if i % 2 == 0 { b / 16 } else { b % 16 };
        assert(0 <= n < 16);
        lemma_hex_digit_lowercase(n);
    }
}

/// Each of the sixteen digits is a lowercase hexadecimal character.
pub proof fn lemma_hex_digit_lowercase(n: int)
    requires
        0 <= n < 16,
    ensures
        is_lower_hex(hex_digit(n)),
{
}

/// Two different values below sixteen have different digits.
pub proof fn lemma_hex_digit_injective(m: int, n: int)
    requires
        0 <= m < 16,
        0 <= n < 16,
        hex_digit(m) == hex_digit(n),
    ensures
        m == n,
{
}

/// The bytes at position `i` sit at positions `2 * i` and `2 * i + 1` of the
/// encoding, as the byte's own two digits.
pub proof fn lemma_hex_encode_pair(bytes: Seq<u8>, i: int)
    requires
        0 <= i < bytes.len(),
    ensures
        hex_encode(bytes).subrange(2 * i, 2 * i + 2) == hex_pair(bytes[i]),
{
    let e = hex_encode(bytes);
    assert((2 * i) / 2 == i && (2 * i) % 2 == 0);
    assert((2 * i + 1) / 2 == i && (2 * i + 1) % 2 == 1);
    assert(e.subrange(2 * i, 2 * i + 2) =~= hex_pair(bytes[i]));
}

/// Encoding loses nothing: two byte strings with the same encoding are the
/// same byte string.
pub proof fn lemma_hex_encode_injective(a: Seq<u8>, b: Seq<u8>)
    requires
        hex_encode(a) == hex_encode(b),
    ensures
        a == b,
{
    assert(hex_encode(a).len() == 2 * a.len());
    assert(hex_encode(b).len() == 2 * b.len());
    assert(a.len() == b.len());
    assert forall|i: int| 0 <= i < a.len() implies a[i] == b[i] by {
        lemma_hex_encode_pair(a, i);
        lemma_hex_encode_pair(b, i);
        let pa = hex_pair(a[i]);
        let pb = hex_pair(b[i]);
        assert(pa == pb);
        assert(pa[0] == pb[0] && pa[1] == pb[1]);
        let x = a[i] as int;
        let y = b[i] as int;
        lemma_hex_digit_injective(x / 16, y / 16);
        lemma_hex_digit_injective(x % 16, y % 16);
    }
    assert(a =~= b);
}

/// Encoding goes piece by piece: the encoding of two byte strings joined is
/// their encodings joined.
pub proof fn lemma_hex_encode_concat(a: Seq<u8>, b: Seq<u8>)
    ensures
        hex_encode(a + b) == hex_encode(a) + hex_encode(b),
{
    let whole = hex_encode(a + b);
    let parts = hex_encode(a) + hex_encode(b);
    assert(whole.len() == parts.len());
    assert forall|k: int| 0 <= k < whole.len() implies whole[k] == parts[k] by {
        if k < 2 * a.len() {
            assert((a + b)[k / 2] == a[k / 2]);
        } else {
            let j = k - 2 * a.len();
            assert(j / 2 == k / 2 - a.len());
            assert(j % 2 == k % 2);
            assert((a + b)[k / 2] == b[j / 2]);
        }
    }
    assert(whole =~= parts);
}

} // verus!
