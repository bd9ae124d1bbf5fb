//! Uppercase hexadecimal encoding of card identifiers.
//!
//! The persisted record holds the 8-byte card identifier as a fixed-width
//! uppercase hexadecimal string: two digits per byte, high nibble first,
//! zero padded, no separators.

use vstd::prelude::*;

verus! {

/// The uppercase hexadecimal digit for a nibble value; values 10..15 map to
/// the letters 'A'..'F'.
pub open spec fn hex_digit(n: u8) -> char {
    if n == 0 {
        '0'
    } else if n == 1 {
        '1'
    } else if n == 2 {
        '2'
    } else if n == 3 {
        '3'
    } else if n == 4 {
        '4'
    } else if n == 5 {
        '5'
    } else if n == 6 {
        '6'
    } else if n == 7 {
        '7'
    } else if n == 8 {
        '8'
    } else if n == 9 {
        '9'
    } else if n == 10 {
        'A'
    } else if n == 11 {
        'B'
    } else if n == 12 {
        'C'
    } else if n == 13 {
        'D'
    } else if n == 14 {
        'E'
    } else {
        'F'
    }
}

/// Two uppercase digits for one byte, high nibble first, always zero padded.
pub open spec fn hex_of_byte(b: u8) -> Seq<char> {
    seq![hex_digit(b / 16), hex_digit(b % 16)]
}

/// The uppercase hexadecimal encoding of a byte sequence: the encodings of
/// its bytes concatenated in order.
pub open spec fn hex_of(bytes: Seq<u8>) -> Seq<char>
    decreases bytes.len(),
{
    if bytes.len() == 0 {
        Seq::empty()
    } else {
        hex_of_byte(bytes[0]) + hex_of(bytes.drop_first())
    }
}

/// A character of the uppercase hexadecimal alphabet.
pub open spec fn is_upper_hex_digit(c: char) -> bool {
    c == '0' || c == '1' || c == '2' || c == '3' || c == '4' || c == '5' || c == '6' || c == '7'
        || c == '8' || c == '9' || c == 'A' || c == 'B' || c == 'C' || c == 'D' || c == 'E'
        || c == 'F'
}

/// Appending a byte to the input appends its two digits to the encoding.
pub proof fn lemma_hex_of_push(bytes: Seq<u8>, b: u8)
    ensures
        hex_of(bytes.push(b)) =~= hex_of(bytes) + hex_of_byte(b),
    decreases bytes.len(),
{
    if bytes.len() == 0 {
        assert(bytes.push(b).drop_first() =~= Seq::<u8>::empty());
        assert(bytes.push(b)[0] == b);
        assert(hex_of(bytes.push(b)) == hex_of_byte(bytes.push(b)[0]) + hex_of(
            bytes.push(b).drop_first(),
        ));
        assert(hex_of(Seq::<u8>::empty()) == Seq::<char>::empty());
    } else {
        assert(bytes.push(b).drop_first() =~= bytes.drop_first().push(b));
        lemma_hex_of_push(bytes.drop_first(), b);
        assert(bytes.push(b)[0] == bytes[0]);
        assert(hex_of(bytes.push(b)) == hex_of_byte(bytes[0]) + hex_of(
            bytes.drop_first().push(b),
        ));
        assert(hex_of(bytes.drop_first().push(b)) == hex_of(bytes.drop_first()) + hex_of_byte(b));
    }
}

/// The hexadecimal encoding has exactly two characters per input byte, and
/// every character of it is an uppercase hexadecimal digit: it is zero padded
/// per byte and never uses lower case.
pub proof fn lemma_hex_of_shape(bytes: Seq<u8>)
    ensures
        hex_of(bytes).len() == 2 * bytes.len(),
        forall|i: int|
            0 <= i < hex_of(bytes).len() ==> is_upper_hex_digit(#[trigger] hex_of(bytes)[i]),
    decreases bytes.len(),
{
    if bytes.len() > 0 {
        lemma_hex_of_shape(bytes.drop_first());
        assert forall|i: int| 0 <= i < hex_of(bytes).len() implies is_upper_hex_digit(
            #[trigger] hex_of(bytes)[i],
        ) by {
            if i >= 2 {
                assert(hex_of(bytes)[i] == hex_of(bytes.drop_first())[i - 2]);
            }
        }
    }
}

/// One uppercase digit as a string slice, for building the encoding.
fn hex_digit_str(n: u8) -> (d: &'static str)
    requires
        n < 16,
    ensures
        d@ =~= seq![hex_digit(n)],
{
    proof {
        reveal_strlit("0");
        reveal_strlit("1");
        reveal_strlit("2");
        reveal_strlit("3");
        reveal_strlit("4");
        reveal_strlit("5");
        reveal_strlit("6");
        reveal_strlit("7");
        reveal_strlit("8");
        reveal_strlit("9");
        reveal_strlit("A");
        reveal_strlit("B");
        reveal_strlit("C");
        reveal_strlit("D");
        reveal_strlit("E");
        reveal_strlit("F");
    }
    match n {
        0 => "0",
        1 => "1",
        2 => "2",
        3 => "3",
        4 => "4",
        5 => "5",
        6 => "6",
        7 => "7",
        8 => "8",
        9 => "9",
        10 => "A",
        11 => "B",
        12 => "C",
        13 => "D",
        14 => "E",
        _ => "F",
    }
}

/// Appends the two-digit encoding of one byte to the string being built.
fn push_hex_byte(s: &mut String, b: u8)
    ensures
        final(s)@ =~= old(s)@ + hex_of_byte(b),
{
    let hi = b / 16;
    let lo = b % 16;
    s.append(hex_digit_str(hi));
    s.append(hex_digit_str(lo));
}

/// Formats the 8 raw bytes of a card identifier as a fixed-width uppercase
/// hexadecimal string: two digits per byte, concatenated, no separators.
pub fn card_id_hex(card_id: &[u8; 8]) -> (r: String)
    ensures
        r@ == hex_of(card_id@),
        r@.len() == 16,
{
    let mut s = String::new();
    let mut i: usize = 0;
    while i < 8
        invariant
            i <= 8,
            s@ =~= hex_of(card_id@.take(i as int)),
        decreases 8 - i,
    {
        push_hex_byte(&mut s, card_id[i]);
        proof {
            lemma_hex_of_push(card_id@.take(i as int), card_id@[i as int]);
            assert(card_id@.take(i + 1 as int) =~= card_id@.take(i as int).push(
                card_id@[i as int],
            ));
        }
        i = i + 1;
    }
    proof {
        assert(card_id@.take(8) =~= card_id@);
        lemma_hex_of_shape(card_id@);
    }
    s
}

} // verus!
