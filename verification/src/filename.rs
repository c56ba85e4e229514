//! Output file naming: one file per note, named `DEFAULT_<note>.<ext>` with
//! the decimal note number unpadded and the extension chosen by the format.

use vstd::prelude::*;

use crate::selector::{extension, extension_spec, Format};

verus! {

/// The decimal digit character of `d`, for `0 <= d <= 9`.
pub open spec fn digit_char(d: int) -> char {
    if d == 0 {
        '0'
    } else if d == 1 {
        '1'
    } else if d == 2 {
        '2'
    } else if d == 3 {
        '3'
    } else if d == 4 {
        '4'
    } else if d == 5 {
        '5'
    } else if d == 6 {
        '6'
    } else if d == 7 {
        '7'
    } else if d == 8 {
        '8'
    } else {
        '9'
    }
}

/// The numeric value of a decimal digit character.
pub open spec fn digit_val(c: char) -> int {
    if c == '0' {
        0
    } else if c == '1' {
        1
    } else if c == '2' {
        2
    } else if c == '3' {
        3
    } else if c == '4' {
        4
    } else if c == '5' {
        5
    } else if c == '6' {
        6
    } else if c == '7' {
        7
    } else if c == '8' {
        8
    } else {
        9
    }
}

/// The decimal representation of `n` without leading zeros (`"0"` for zero).
pub open spec fn dec_spec(n: int) -> Seq<char>
    decreases n,
{
    if n < 10 {
        seq![digit_char(n)]
    } else {
        dec_spec(n / 10).push(digit_char(n % 10))
    }
}

/// The number a sequence of decimal digit characters denotes.
pub open spec fn dec_value(s: Seq<char>) -> int
    decreases s.len(),
{
    if s.len() == 0 {
        0
    } else {
        10 * dec_value(s.drop_last()) + digit_val(s.last())
    }
}

/// The decimal representation denotes the number it was built from.
pub proof fn lemma_dec_value(n: int)
    requires
        n >= 0,
    ensures
        dec_value(dec_spec(n)) == n,
    decreases n,
{
    if n < 10 {
        reveal_with_fuel(dec_value, 2);
        assert(seq![digit_char(n)].drop_last() =~= Seq::<char>::empty());
    } else {
        lemma_dec_value(n / 10);
        let s = dec_spec(n);
        assert(s == dec_spec(n / 10).push(digit_char(n % 10)));
        assert(s.drop_last() =~= dec_spec(n / 10));
        assert(s.last() == digit_char(n % 10));
        assert(0 <= n % 10 < 10);
        assert(digit_val(digit_char(n % 10)) == n % 10);
        assert(dec_value(s) == 10 * dec_value(s.drop_last()) + digit_val(s.last()));
        vstd::arithmetic::div_mod::lemma_fundamental_div_mod(n, 10);
    }
}

/// Distinct numbers have distinct decimal representations.
pub proof fn lemma_dec_injective(m: int, n: int)
    requires
        m >= 0,
        n >= 0,
        m != n,
    ensures
        dec_spec(m) != dec_spec(n),
{
    if dec_spec(m) == dec_spec(n) {
        lemma_dec_value(m);
        lemma_dec_value(n);
    }
}

/// The full name of one note's output file.
pub open spec fn filename_spec(note: int, fmt: Format) -> Seq<char> {
    "DEFAULT_"@ + dec_spec(note) + "."@ + extension_spec(fmt)
}

/// The decimal digit character of `d` as a one-character string.
fn digit_str(d: u8) -> (r: &'static str)
    requires
        d <= 9,
    ensures
        r@ == seq![digit_char(d as int)],
{
    proof {
        reveal_strlit("0");
        reveal_strlit("1");
        reveal_strlit("2");
        reveal_strlit("3");
        reveal_strlit("4");
        reveal_strlit("5");
        reveal_strlit("6");
        reveal_strlit("7");
        reveal_strlit("8");
        reveal_strlit("9");
        assert("0"@ =~= seq![digit_char(0)]);
        assert("1"@ =~= seq![digit_char(1)]);
        assert("2"@ =~= seq![digit_char(2)]);
        assert("3"@ =~= seq![digit_char(3)]);
        assert("4"@ =~= seq![digit_char(4)]);
        assert("5"@ =~= seq![digit_char(5)]);
        assert("6"@ =~= seq![digit_char(6)]);
        assert("7"@ =~= seq![digit_char(7)]);
        assert("8"@ =~= seq![digit_char(8)]);
        assert("9"@ =~= seq![digit_char(9)]);
    }
    match d {
        0 => "0",
        1 => "1",
        2 => "2",
        3 => "3",
        4 => "4",
        5 => "5",
        6 => "6",
        7 => "7",
        8 => "8",
        _ => "9",
    }
}

/// The unpadded decimal representation of a note number.
pub fn dec_str(n: u8) -> (r: String)
    ensures
        r@ == dec_spec(n as int),
{
    proof {
        assert(n / 100 <= 9 && (n / 10) % 10 <= 9 && n % 10 <= 9) by (bit_vector);
    }
    let mut s = String::new();
    if n >= 100 {
        s.append(digit_str(n / 100));
    }
    if n >= 10 {
        s.append(digit_str((n / 10) % 10));
    }
    s.append(digit_str(n % 10));
    proof {
        reveal_with_fuel(dec_spec, 4);
        if n < 10 {
            assert(n % 10 == n) by (bit_vector)
                requires
                    n < 10,
            ;
            assert(s@ =~= dec_spec(n as int));
        } else if n < 100 {
            assert(1 <= n / 10 && n / 10 < 10 && (n / 10) % 10 == n / 10) by (bit_vector)
                requires
                    10 <= n && n < 100,
            ;
            assert(s@ =~= dec_spec(n as int));
        } else {
            assert(1 <= n / 100 && n / 100 < 10 && 10 <= n / 10 && (n / 10) / 10 == n / 100
                && (n / 100) % 10 == n / 100) by (bit_vector)
                requires
                    100 <= n,
            ;
            assert(s@ =~= dec_spec(n as int));
        }
    }
    s
}

/// The name of one note's output file: `DEFAULT_<note>.<ext>`.
pub fn note_filename(note: u8, fmt: Format) -> (r: String)
    ensures
        r@ == filename_spec(note as int, fmt),
{
    let mut s = String::from_str("DEFAULT_");
    let digits = dec_str(note);
    s.append(digits.as_str());
    s.append(".");
    s.append(extension(fmt));
    proof {
        assert(s@ =~= filename_spec(note as int, fmt));
    }
    s
}

/// Every planned file name is non-empty: it holds the eight-character prefix,
/// at least one digit, the dot, and a three-character extension.
pub proof fn lemma_filename_nonempty(note: int, fmt: Format)
    requires
        note >= 0,
    ensures
        filename_spec(note, fmt).len() == 12 + dec_spec(note).len(),
        dec_spec(note).len() >= 1,
{
    reveal_strlit("DEFAULT_");
    reveal_strlit(".");
    reveal_strlit("WAV");
    reveal_strlit("pcm");
}

/// Distinct notes are written to distinct files: the naming convention is
/// injective in the note number for a fixed format.
pub proof fn lemma_filenames_distinct(m: int, n: int, fmt: Format)
    requires
        m >= 0,
        n >= 0,
        m != n,
    ensures
        filename_spec(m, fmt) != filename_spec(n, fmt),
{
    if filename_spec(m, fmt) == filename_spec(n, fmt) {
        let p = "DEFAULT_"@;
        let dm = dec_spec(m);
        let dn = dec_spec(n);
        assert(filename_spec(m, fmt) == p + dm + "."@ + extension_spec(fmt));
        assert(filename_spec(n, fmt) == p + dn + "."@ + extension_spec(fmt));
        assert(dm.len() == dn.len());
        assert(dm =~= dn) by {
            assert forall|i: int| 0 <= i < dm.len() implies dm[i] == dn[i] by {
                assert(filename_spec(m, fmt)[p.len() + i] == dm[i]);
                assert(filename_spec(n, fmt)[p.len() + i] == dn[i]);
            }
        }
        lemma_dec_injective(m, n);
    }
}

} // verus!
