//! Rendering of 128-bit ULID values as their canonical 26-character
//! Crockford base-32 strings, and the draw of a fresh ULID value.

use vstd::prelude::*;
use vstd::string::StringExecFns;

verus! {

/// The Crockford base-32 digit for a value below 32.
pub open spec fn crockford_char(d: u128) -> char {
    if d == 0 { '0' }
    else if d == 1 { '1' }
    else if d == 2 { '2' }
    else if d == 3 { '3' }
    else if d == 4 { '4' }
    else if d == 5 { '5' }
    else if d == 6 { '6' }
    else if d == 7 { '7' }
    else if d == 8 { '8' }
    else if d == 9 { '9' }
    else if d == 10 { 'A' }
    else if d == 11 { 'B' }
    else if d == 12 { 'C' }
    else if d == 13 { 'D' }
    else if d == 14 { 'E' }
    else if d == 15 { 'F' }
    else if d == 16 { 'G' }
    else if d == 17 { 'H' }
    else if d == 18 { 'J' }
    else if d == 19 { 'K' }
    else if d == 20 { 'M' }
    else if d == 21 { 'N' }
    else if d == 22 { 'P' }
    else if d == 23 { 'Q' }
    else if d == 24 { 'R' }
    else if d == 25 { 'S' }
    else if d == 26 { 'T' }
    else if d == 27 { 'V' }
    else if d == 28 { 'W' }
    else if d == 29 { 'X' }
    else if d == 30 { 'Y' }
    else if d == 31 { 'Z' }
    else { ' ' }
}

/// True of the 32 characters of the Crockford base-32 alphabet.
pub open spec fn is_crockford_char(c: char) -> bool {
    ||| c == '0'
    ||| c == '1'
    ||| c == '2'
    ||| c == '3'
    ||| c == '4'
    ||| c == '5'
    ||| c == '6'
    ||| c == '7'
    ||| c == '8'
    ||| c == '9'
    ||| c == 'A'
    ||| c == 'B'
    ||| c == 'C'
    ||| c == 'D'
    ||| c == 'E'
    ||| c == 'F'
    ||| c == 'G'
    ||| c == 'H'
    ||| c == 'J'
    ||| c == 'K'
    ||| c == 'M'
    ||| c == 'N'
    ||| c == 'P'
    ||| c == 'Q'
    ||| c == 'R'
    ||| c == 'S'
    ||| c == 'T'
    ||| c == 'V'
    ||| c == 'W'
    ||| c == 'X'
    ||| c == 'Y'
    ||| c == 'Z'
}

/// The one-character string for a Crockford base-32 digit.
fn crockford_str(d: u8) -> (r: &'static str)
    requires
        d < 32,
    ensures
        r@ == seq![crockford_char(d as u128)],
{
    match d {
        0 => {
            proof {
                reveal_strlit("0");
                assert("0"@ =~= seq![crockford_char(0)]);
            }
            "0"
        },
        1 => {
            proof {
                reveal_strlit("1");
                assert("1"@ =~= seq![crockford_char(1)]);
            }
            "1"
        },
        2 => {
            proof {
                reveal_strlit("2");
                assert("2"@ =~= seq![crockford_char(2)]);
            }
            "2"
        },
        3 => {
            proof {
                reveal_strlit("3");
                assert("3"@ =~= seq![crockford_char(3)]);
            }
            "3"
        },
        4 => {
            proof {
                reveal_strlit("4");
                assert("4"@ =~= seq![crockford_char(4)]);
            }
            "4"
        },
        5 => {
            proof {
                reveal_strlit("5");
                assert("5"@ =~= seq![crockford_char(5)]);
            }
            "5"
        },
        6 => {
            proof {
                reveal_strlit("6");
                assert("6"@ =~= seq![crockford_char(6)]);
            }
            "6"
        },
        7 => {
            proof {
                reveal_strlit("7");
                assert("7"@ =~= seq![crockford_char(7)]);
            }
            "7"
        },
        8 => {
            proof {
                reveal_strlit("8");
                assert("8"@ =~= seq![crockford_char(8)]);
            }
            "8"
        },
        9 => {
            proof {
                reveal_strlit("9");
                assert("9"@ =~= seq![crockford_char(9)]);
            }
            "9"
        },
        10 => {
            proof {
                reveal_strlit("A");
                assert("A"@ =~= seq![crockford_char(10)]);
            }
            "A"
        },
        11 => {
            proof {
                reveal_strlit("B");
                assert("B"@ =~= seq![crockford_char(11)]);
            }
            "B"
        },
        12 => {
            proof {
                reveal_strlit("C");
                assert("C"@ =~= seq![crockford_char(12)]);
            }
            "C"
        },
        13 => {
            proof {
                reveal_strlit("D");
                assert("D"@ =~= seq![crockford_char(13)]);
            }
            "D"
        },
        14 => {
            proof {
                reveal_strlit("E");
                assert("E"@ =~= seq![crockford_char(14)]);
            }
            "E"
        },
        15 => {
            proof {
                reveal_strlit("F");
                assert("F"@ =~= seq![crockford_char(15)]);
            }
            "F"
        },
        16 => {
            proof {
                reveal_strlit("G");
                assert("G"@ =~= seq![crockford_char(16)]);
            }
            "G"
        },
        17 => {
            proof {
                reveal_strlit("H");
                assert("H"@ =~= seq![crockford_char(17)]);
            }
            "H"
        },
        18 => {
            proof {
                reveal_strlit("J");
                assert("J"@ =~= seq![crockford_char(18)]);
            }
            "J"
        },
        19 => {
            proof {
                reveal_strlit("K");
                assert("K"@ =~= seq![crockford_char(19)]);
            }
            "K"
        },
        20 => {
            proof {
                reveal_strlit("M");
                assert("M"@ =~= seq![crockford_char(20)]);
            }
            "M"
        },
        21 => {
            proof {
                reveal_strlit("N");
                assert("N"@ =~= seq![crockford_char(21)]);
            }
            "N"
        },
        22 => {
            proof {
                reveal_strlit("P");
                assert("P"@ =~= seq![crockford_char(22)]);
            }
            "P"
        },
        23 => {
            proof {
                reveal_strlit("Q");
                assert("Q"@ =~= seq![crockford_char(23)]);
            }
            "Q"
        },
        24 => {
            proof {
                reveal_strlit("R");
                assert("R"@ =~= seq![crockford_char(24)]);
            }
            "R"
        },
        25 => {
            proof {
                reveal_strlit("S");
                assert("S"@ =~= seq![crockford_char(25)]);
            }
            "S"
        },
        26 => {
            proof {
                reveal_strlit("T");
                assert("T"@ =~= seq![crockford_char(26)]);
            }
            "T"
        },
        27 => {
            proof {
                reveal_strlit("V");
                assert("V"@ =~= seq![crockford_char(27)]);
            }
            "V"
        },
        28 => {
            proof {
                reveal_strlit("W");
                assert("W"@ =~= seq![crockford_char(28)]);
            }
            "W"
        },
        29 => {
            proof {
                reveal_strlit("X");
                assert("X"@ =~= seq![crockford_char(29)]);
            }
            "X"
        },
        30 => {
            proof {
                reveal_strlit("Y");
                assert("Y"@ =~= seq![crockford_char(30)]);
            }
            "Y"
        },
        31 => {
            proof {
                reveal_strlit("Z");
                assert("Z"@ =~= seq![crockford_char(31)]);
            }
            "Z"
        },
        _ => {
            proof {
                assert(false);
                reveal_strlit("0");
                assert("0"@ =~= seq![crockford_char(d as u128)]);
            }
            "0"
        },
    }
}

/// The i-th five-bit group of a ULID value, most significant first: the
/// group that the i-th output character encodes.
pub open spec fn ulid_digit(n: u128, i: int) -> u128 {
    (n >> ((5 * (25 - i)) as u128)) & 0x1f
}

/// The canonical 26-character rendering of a 128-bit ULID value.
pub open spec fn ulid_chars(n: u128) -> Seq<char> {
    Seq::new(26, |i: int| crockford_char(ulid_digit(n, i)))
}

/// Every five-bit group is below 32.
pub proof fn lemma_ulid_digit_bound(n: u128, i: int)
    requires
        0 <= i < 26,
    ensures
        ulid_digit(n, i) < 32,
{
    let sh: u128 = (5 * (25 - i)) as u128;
    assert(((n >> sh) & 0x1f) < 32) by (bit_vector);
}

/// Distinct digits render as distinct Crockford characters.
pub proof fn lemma_crockford_injective(d1: u128, d2: u128)
    requires
        d1 < 32,
        d2 < 32,
        crockford_char(d1) == crockford_char(d2),
    ensures
        d1 == d2,
{
}

/// A rendered ULID is 26 characters long, all from the Crockford alphabet.
pub proof fn lemma_ulid_chars_shape(n: u128)
    ensures
        ulid_chars(n).len() == 26,
        forall|i: int| 0 <= i < 26 ==> is_crockford_char(#[trigger] ulid_chars(n)[i]),
{
    assert forall|i: int| 0 <= i < 26 implies is_crockford_char(#[trigger] ulid_chars(n)[i]) by {
        lemma_ulid_digit_bound(n, i);
    }
}

/// Equal renderings come only from equal values.
pub proof fn lemma_ulid_chars_injective(a: u128, b: u128)
    requires
        ulid_chars(a) == ulid_chars(b),
    ensures
        a == b,
{
    assert forall|i: int| 0 <= i < 26 implies ulid_digit(a, i) == ulid_digit(b, i) by {
        assert(ulid_chars(a)[i] == crockford_char(ulid_digit(a, i)));
        assert(ulid_chars(b)[i] == crockford_char(ulid_digit(b, i)));
        assert(ulid_chars(a)[i] == ulid_chars(b)[i]);
        lemma_ulid_digit_bound(a, i);
        lemma_ulid_digit_bound(b, i);
        lemma_crockford_injective(ulid_digit(a, i), ulid_digit(b, i));
    }
    assert((a >> 125) & 0x1f == (b >> 125) & 0x1f) by {
        assert(ulid_digit(a, 0) == ulid_digit(b, 0));
    }
    assert((a >> 120) & 0x1f == (b >> 120) & 0x1f) by {
        assert(ulid_digit(a, 1) == ulid_digit(b, 1));
    }
    assert((a >> 115) & 0x1f == (b >> 115) & 0x1f) by {
        assert(ulid_digit(a, 2) == ulid_digit(b, 2));
    }
    assert((a >> 110) & 0x1f == (b >> 110) & 0x1f) by {
        assert(ulid_digit(a, 3) == ulid_digit(b, 3));
    }
    assert((a >> 105) & 0x1f == (b >> 105) & 0x1f) by {
        assert(ulid_digit(a, 4) == ulid_digit(b, 4));
    }
    assert((a >> 100) & 0x1f == (b >> 100) & 0x1f) by {
        assert(ulid_digit(a, 5) == ulid_digit(b, 5));
    }
    assert((a >> 95) & 0x1f == (b >> 95) & 0x1f) by {
        assert(ulid_digit(a, 6) == ulid_digit(b, 6));
    }
    assert((a >> 90) & 0x1f == (b >> 90) & 0x1f) by {
        assert(ulid_digit(a, 7) == ulid_digit(b, 7));
    }
    assert((a >> 85) & 0x1f == (b >> 85) & 0x1f) by {
        assert(ulid_digit(a, 8) == ulid_digit(b, 8));
    }
    assert((a >> 80) & 0x1f == (b >> 80) & 0x1f) by {
        assert(ulid_digit(a, 9) == ulid_digit(b, 9));
    }
    assert((a >> 75) & 0x1f == (b >> 75) & 0x1f) by {
        assert(ulid_digit(a, 10) == ulid_digit(b, 10));
    }
    assert((a >> 70) & 0x1f == (b >> 70) & 0x1f) by {
        assert(ulid_digit(a, 11) == ulid_digit(b, 11));
    }
    assert((a >> 65) & 0x1f == (b >> 65) & 0x1f) by {
        assert(ulid_digit(a, 12) == ulid_digit(b, 12));
    }
    assert((a >> 60) & 0x1f == (b >> 60) & 0x1f) by {
        assert(ulid_digit(a, 13) == ulid_digit(b, 13));
    }
    assert((a >> 55) & 0x1f == (b >> 55) & 0x1f) by {
        assert(ulid_digit(a, 14) == ulid_digit(b, 14));
    }
    assert((a >> 50) & 0x1f == (b >> 50) & 0x1f) by {
        assert(ulid_digit(a, 15) == ulid_digit(b, 15));
    }
    assert((a >> 45) & 0x1f == (b >> 45) & 0x1f) by {
        assert(ulid_digit(a, 16) == ulid_digit(b, 16));
    }
    assert((a >> 40) & 0x1f == (b >> 40) & 0x1f) by {
        assert(ulid_digit(a, 17) == ulid_digit(b, 17));
    }
    assert((a >> 35) & 0x1f == (b >> 35) & 0x1f) by {
        assert(ulid_digit(a, 18) == ulid_digit(b, 18));
    }
    assert((a >> 30) & 0x1f == (b >> 30) & 0x1f) by {
        assert(ulid_digit(a, 19) == ulid_digit(b, 19));
    }
    assert((a >> 25) & 0x1f == (b >> 25) & 0x1f) by {
        assert(ulid_digit(a, 20) == ulid_digit(b, 20));
    }
    assert((a >> 20) & 0x1f == (b >> 20) & 0x1f) by {
        assert(ulid_digit(a, 21) == ulid_digit(b, 21));
    }
    assert((a >> 15) & 0x1f == (b >> 15) & 0x1f) by {
        assert(ulid_digit(a, 22) == ulid_digit(b, 22));
    }
    assert((a >> 10) & 0x1f == (b >> 10) & 0x1f) by {
        assert(ulid_digit(a, 23) == ulid_digit(b, 23));
    }
    assert((a >> 5) & 0x1f == (b >> 5) & 0x1f) by {
        assert(ulid_digit(a, 24) == ulid_digit(b, 24));
    }
    assert((a >> 0) & 0x1f == (b >> 0) & 0x1f) by {
        assert(ulid_digit(a, 25) == ulid_digit(b, 25));
    }
    assert(a == b) by (bit_vector)
        requires
            (a >> 125) & 0x1f == (b >> 125) & 0x1f,
            (a >> 120) & 0x1f == (b >> 120) & 0x1f,
            (a >> 115) & 0x1f == (b >> 115) & 0x1f,
            (a >> 110) & 0x1f == (b >> 110) & 0x1f,
            (a >> 105) & 0x1f == (b >> 105) & 0x1f,
            (a >> 100) & 0x1f == (b >> 100) & 0x1f,
            (a >> 95) & 0x1f == (b >> 95) & 0x1f,
            (a >> 90) & 0x1f == (b >> 90) & 0x1f,
            (a >> 85) & 0x1f == (b >> 85) & 0x1f,
            (a >> 80) & 0x1f == (b >> 80) & 0x1f,
            (a >> 75) & 0x1f == (b >> 75) & 0x1f,
            (a >> 70) & 0x1f == (b >> 70) & 0x1f,
            (a >> 65) & 0x1f == (b >> 65) & 0x1f,
            (a >> 60) & 0x1f == (b >> 60) & 0x1f,
            (a >> 55) & 0x1f == (b >> 55) & 0x1f,
            (a >> 50) & 0x1f == (b >> 50) & 0x1f,
            (a >> 45) & 0x1f == (b >> 45) & 0x1f,
            (a >> 40) & 0x1f == (b >> 40) & 0x1f,
            (a >> 35) & 0x1f == (b >> 35) & 0x1f,
            (a >> 30) & 0x1f == (b >> 30) & 0x1f,
            (a >> 25) & 0x1f == (b >> 25) & 0x1f,
            (a >> 20) & 0x1f == (b >> 20) & 0x1f,
            (a >> 15) & 0x1f == (b >> 15) & 0x1f,
            (a >> 10) & 0x1f == (b >> 10) & 0x1f,
            (a >> 5) & 0x1f == (b >> 5) & 0x1f,
            (a >> 0) & 0x1f == (b >> 0) & 0x1f,
    ;
}

/// Renders a ULID value as its canonical 26-character Crockford string.
pub fn ulid_string(n: u128) -> (s: String)
    ensures
        s@ == ulid_chars(n),
{
    let mut s = String::new();
    proof {
        assert(ulid_chars(n).take(0) =~= Seq::<char>::empty());
    }
    let mut i: usize = 0;
    while i < 26
        invariant
            i <= 26,
            s@ == ulid_chars(n).take(i as int),
        decreases 26 - i,
    {
        let sh: u128 = 5 * (25 - i as u128);
        assert(((n >> sh) & 0x1f) < 32) by (bit_vector);
        let d: u8 = ((n >> sh) & 0x1f) as u8;
        let piece = crockford_str(d);
        s.append(piece);
        proof {
            assert(d as u128 == ulid_digit(n, i as int));
            assert(ulid_chars(n).take(i as int + 1) =~= ulid_chars(n).take(i as int)
                + seq![crockford_char(ulid_digit(n, i as int))]);
        }
        i = i + 1;
    }
    proof {
        assert(ulid_chars(n).take(26) =~= ulid_chars(n));
    }
    s
}

/// Relies on ulid::Ulid::new: a fresh 128-bit ULID drawn from the system
/// clock and the thread's random number generator. Nothing is promised of
/// the value, since time and randomness decide it.
#[verifier::external_body]
pub(crate) fn fresh_ulid_value() -> u128 {
    ulid::Ulid::new().0
}

} // verus!
