//! Rendering of unsigned integers as decimal and lowercase hexadecimal
//! character sequences, with the facts about digit counts and character
//! classes that the code generators rely on.

use vstd::prelude::*;
use vstd::string::StringExecFns;

verus! {

/// True of the ten ASCII decimal digit characters.
pub open spec fn is_dec_char(c: char) -> bool {
    c == '0' || c == '1' || c == '2' || c == '3' || c == '4' || c == '5' || c == '6' || c == '7'
        || c == '8' || c == '9'
}

/// True of the sixteen lowercase ASCII hexadecimal digit characters.
pub open spec fn is_hex_char(c: char) -> bool {
    is_dec_char(c) || c == 'a' || c == 'b' || c == 'c' || c == 'd' || c == 'e' || c == 'f'
}

/// Every character of `s` is a decimal digit.
pub open spec fn all_dec_chars(s: Seq<char>) -> bool {
    forall|i: int| 0 <= i < s.len() ==> is_dec_char(#[trigger] s[i])
}

/// Every character of `s` is a lowercase hexadecimal digit.
pub open spec fn all_hex_chars(s: Seq<char>) -> bool {
    forall|i: int| 0 <= i < s.len() ==> is_hex_char(#[trigger] s[i])
}

/// The decimal digit character for a value below ten.
pub open spec fn dec_char_of(d: nat) -> char
    recommends
        d < 10,
{
    if d == 0 {
        '0'
    } else if d == 1 {
        '1'
    } else if d == 2 {
        '2'
    } else if d == 3 {
        '3'
    } else if d == 4 {
        '4'
    } else if d == 5 {
        '5'
    } else if d == 6 {
        '6'
    } else if d == 7 {
        '7'
    } else if d == 8 {
        '8'
    } else {
        '9'
    }
}

/// The lowercase hexadecimal digit character for a value below sixteen.
pub open spec fn hex_char_of(d: nat) -> char
    recommends
        d < 16,
{
    if d < 10 {
        dec_char_of(d)
    } else if d == 10 {
        'a'
    } else if d == 11 {
        'b'
    } else if d == 12 {
        'c'
    } else if d == 13 {
        'd'
    } else if d == 14 {
        'e'
    } else {
        'f'
    }
}

/// The decimal rendering of `n`, most significant digit first, with no
/// leading zeros (a lone zero for zero itself).
pub open spec fn dec_digits(n: nat) -> Seq<char>
    decreases n,
{
    if n < 10 {
        seq![dec_char_of(n)]
    } else {
        dec_digits(n / 10).push(dec_char_of(n % 10))
    }
}

/// The lowercase hexadecimal rendering of `n`, most significant digit first,
/// with no leading zeros.
pub open spec fn hex_digits(n: nat) -> Seq<char>
    decreases n,
{
    if n < 16 {
        seq![hex_char_of(n)]
    } else {
        hex_digits(n / 16).push(hex_char_of(n % 16))
    }
}

/// Ten raised to `k`.
pub open spec fn pow10(k: nat) -> nat
    decreases k,
{
    if k == 0 {
        1
    } else {
        10 * pow10((k - 1) as nat)
    }
}

/// Sixteen raised to `k`.
pub open spec fn pow16(k: nat) -> nat
    decreases k,
{
    if k == 0 {
        1
    } else {
        16 * pow16((k - 1) as nat)
    }
}

pub proof fn lemma_pow10_pos(k: nat)
    ensures
        pow10(k) >= 1,
    decreases k,
{
    if k > 0 {
        lemma_pow10_pos((k - 1) as nat);
    }
}

pub proof fn lemma_pow16_pos(k: nat)
    ensures
        pow16(k) >= 1,
    decreases k,
{
    if k > 0 {
        lemma_pow16_pos((k - 1) as nat);
    }
}

/// A number at or above the `(k-1)`-th and below the `k`-th power of ten
/// renders as exactly `k` decimal digits.
pub proof fn lemma_dec_digits_len(n: nat, k: nat)
    requires
        1 <= k,
        pow10((k - 1) as nat) <= n < pow10(k),
    ensures
        dec_digits(n).len() == k,
    decreases k,
{
    if k == 1 {
        assert(pow10(1) == 10);
    } else {
        lemma_pow10_pos((k - 2) as nat);
        assert(pow10((k - 1) as nat) == 10 * pow10((k - 2) as nat));
        assert(pow10(k) == 10 * pow10((k - 1) as nat));
        assert(n >= 10);
        assert(n / 10 >= pow10((k - 2) as nat)) by (nonlinear_arith)
            requires
                n >= 10 * pow10((k - 2) as nat),
        ;
        assert(n / 10 < pow10((k - 1) as nat)) by (nonlinear_arith)
            requires
                n < 10 * pow10((k - 1) as nat),
        ;
        lemma_dec_digits_len(n / 10, (k - 1) as nat);
    }
}

/// A number at or above the `(k-1)`-th and below the `k`-th power of sixteen
/// renders as exactly `k` hexadecimal digits.
pub proof fn lemma_hex_digits_len(n: nat, k: nat)
    requires
        1 <= k,
        pow16((k - 1) as nat) <= n < pow16(k),
    ensures
        hex_digits(n).len() == k,
    decreases k,
{
    if k == 1 {
        assert(pow16(1) == 16);
    } else {
        lemma_pow16_pos((k - 2) as nat);
        assert(pow16((k - 1) as nat) == 16 * pow16((k - 2) as nat));
        assert(pow16(k) == 16 * pow16((k - 1) as nat));
        assert(n >= 16);
        assert(n / 16 >= pow16((k - 2) as nat)) by (nonlinear_arith)
            requires
                n >= 16 * pow16((k - 2) as nat),
        ;
        assert(n / 16 < pow16((k - 1) as nat)) by (nonlinear_arith)
            requires
                n < 16 * pow16((k - 1) as nat),
        ;
        lemma_hex_digits_len(n / 16, (k - 1) as nat);
    }
}

/// A decimal rendering consists of decimal digit characters only.
pub proof fn lemma_dec_digits_chars(n: nat)
    ensures
        all_dec_chars(dec_digits(n)),
    decreases n,
{
    if n < 10 {
        assert(dec_digits(n)[0] == dec_char_of(n));
    } else {
        lemma_dec_digits_chars(n / 10);
        let prefix = dec_digits(n / 10);
        assert forall|i: int| 0 <= i < dec_digits(n).len() implies is_dec_char(
            #[trigger] dec_digits(n)[i],
        ) by {
            if i < prefix.len() {
                assert(dec_digits(n)[i] == prefix[i]);
            } else {
                assert(dec_digits(n)[i] == dec_char_of(n % 10));
            }
        }
    }
}

/// A hexadecimal rendering consists of lowercase hexadecimal digit
/// characters only.
pub proof fn lemma_hex_digits_chars(n: nat)
    ensures
        all_hex_chars(hex_digits(n)),
    decreases n,
{
    if n < 16 {
        assert(hex_digits(n)[0] == hex_char_of(n));
    } else {
        lemma_hex_digits_chars(n / 16);
        let prefix = hex_digits(n / 16);
        assert forall|i: int| 0 <= i < hex_digits(n).len() implies is_hex_char(
            #[trigger] hex_digits(n)[i],
        ) by {
            if i < prefix.len() {
                assert(hex_digits(n)[i] == prefix[i]);
            } else {
                assert(hex_digits(n)[i] == hex_char_of(n % 16));
            }
        }
    }
}

/// The one-character string for a decimal digit.
fn dec_char_str(d: u64) -> (s: &'static str)
    requires
        d < 10,
    ensures
        s@ == seq![dec_char_of(d as nat)],
{
    if d == 0 {
        proof {
            reveal_strlit("0");
            assert("0"@ =~= seq![dec_char_of(d as nat)]);
        }
        "0"
    } else if d == 1 {
        proof {
            reveal_strlit("1");
            assert("1"@ =~= seq![dec_char_of(d as nat)]);
        }
        "1"
    } else if d == 2 {
        proof {
            reveal_strlit("2");
            assert("2"@ =~= seq![dec_char_of(d as nat)]);
        }
        "2"
    } else if d == 3 {
        proof {
            reveal_strlit("3");
            assert("3"@ =~= seq![dec_char_of(d as nat)]);
        }
        "3"
    } else if d == 4 {
        proof {
            reveal_strlit("4");
            assert("4"@ =~= seq![dec_char_of(d as nat)]);
        }
        "4"
    } else if d == 5 {
        proof {
            reveal_strlit("5");
            assert("5"@ =~= seq![dec_char_of(d as nat)]);
        }
        "5"
    } else if d == 6 {
        proof {
            reveal_strlit("6");
            assert("6"@ =~= seq![dec_char_of(d as nat)]);
        }
        "6"
    } else if d == 7 {
        proof {
            reveal_strlit("7");
            assert("7"@ =~= seq![dec_char_of(d as nat)]);
        }
        "7"
    } else if d == 8 {
        proof {
            reveal_strlit("8");
            assert("8"@ =~= seq![dec_char_of(d as nat)]);
        }
        "8"
    } else {
        proof {
            reveal_strlit("9");
            assert("9"@ =~= seq![dec_char_of(d as nat)]);
        }
        "9"
    }
}

/// The one-character string for a lowercase hexadecimal digit.
fn hex_char_str(d: u64) -> (s: &'static str)
    requires
        d < 16,
    ensures
        s@ == seq![hex_char_of(d as nat)],
{
    if d < 10 {
        let s = dec_char_str(d);
        proof {
            assert(hex_char_of(d as nat) == dec_char_of(d as nat));
        }
        s
    } else if d == 10 {
        proof {
            reveal_strlit("a");
            assert("a"@ =~= seq![hex_char_of(d as nat)]);
        }
        "a"
    } else if d == 11 {
        proof {
            reveal_strlit("b");
            assert("b"@ =~= seq![hex_char_of(d as nat)]);
        }
        "b"
    } else if d == 12 {
        proof {
            reveal_strlit("c");
            assert("c"@ =~= seq![hex_char_of(d as nat)]);
        }
        "c"
    } else if d == 13 {
        proof {
            reveal_strlit("d");
            assert("d"@ =~= seq![hex_char_of(d as nat)]);
        }
        "d"
    } else if d == 14 {
        proof {
            reveal_strlit("e");
            assert("e"@ =~= seq![hex_char_of(d as nat)]);
        }
        "e"
    } else {
        proof {
            reveal_strlit("f");
            assert("f"@ =~= seq![hex_char_of(d as nat)]);
        }
        "f"
    }
}

/// Render `n` in decimal.
pub fn dec_string(n: u64) -> (s: String)
    ensures
        s@ == dec_digits(n as nat),
    decreases n,
{
    if n < 10 {
        dec_char_str(n).to_owned()
    } else {
        let mut s = dec_string(n / 10);
        s.append(dec_char_str(n % 10));
        proof {
            assert(s@ =~= dec_digits(n as nat));
        }
        s
    }
}

/// Render `n` in lowercase hexadecimal.
pub fn hex_string(n: u64) -> (s: String)
    ensures
        s@ == hex_digits(n as nat),
    decreases n,
{
    if n < 16 {
        hex_char_str(n).to_owned()
    } else {
        let mut s = hex_string(n / 16);
        s.append(hex_char_str(n % 16));
        proof {
            assert(s@ =~= hex_digits(n as nat));
        }
        s
    }
}

} // verus!
