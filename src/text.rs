//! Small text-building helpers for listings: hexadecimal and decimal numbers, padding, and
//! printable characters.
use vstd::prelude::*;
use vstd::string::{StrSliceExecFns, StringExecFns};

verus! {

/// The upper-case hexadecimal digit for `d` below 16.
pub open spec fn hex_char(d: int) -> char {
    seq!['0', '1', '2', '3', '4', '5', '6', '7', '8', '9', 'A', 'B', 'C', 'D', 'E', 'F'][d]
}

/// The low `width` hexadecimal digits of `v`, most significant first.
pub open spec fn hex_spec(v: int, width: nat) -> Seq<char>
    decreases width,
{
    if width == 0 {
        seq![]
    } else {
        hex_spec(v / 16, (width - 1) as nat) + seq![hex_char(v % 16)]
    }
}

/// `hex_spec` gives exactly `width` digits.
pub proof fn lemma_hex_len(v: int, width: nat)
    ensures
        hex_spec(v, width).len() == width,
    decreases width,
{
    if width > 0 {
        lemma_hex_len(v / 16, (width - 1) as nat);
    }
}

/// The upper-case hexadecimal digit of `d`.
pub fn hex_digit(d: u16) -> (r: &'static str)
    requires
        d < 16,
    ensures
        r@ == seq![hex_char(d as int)],
{
    proof {
        reveal_strlit("0"); reveal_strlit("1"); reveal_strlit("2"); reveal_strlit("3"); reveal_strlit("4"); reveal_strlit("5"); reveal_strlit("6"); reveal_strlit("7"); reveal_strlit("8"); reveal_strlit("9"); reveal_strlit("A"); reveal_strlit("B"); reveal_strlit("C"); reveal_strlit("D"); reveal_strlit("E"); reveal_strlit("F");
    }
    match d {
        0 => "0",
        1 => "1",
        2 => "2",
        3 => "3",
        4 => "4",
        5 => "5",
        6 => "6",
        7 => "7",
        8 => "8",
        9 => "9",
        10 => "A",
        11 => "B",
        12 => "C",
        13 => "D",
        14 => "E",
        _ => "F",
    }
}

/// Appends `v` as `width` upper-case hexadecimal digits (two or four).
pub fn push_hex(s: &mut String, v: u16, width: u16)
    requires
        width == 2 || width == 4,
    ensures
        final(s)@ == old(s)@ + hex_spec(v as int, width as nat),
{
    reveal_with_fuel(hex_spec, 5);
    if width == 4 {
        assert((v >> 12u16) & 0xFu16 == (v / 4096) % 16) by (bit_vector);
        assert((v >> 8u16) & 0xFu16 == (v / 256) % 16) by (bit_vector);
        assert(v / 4096 == v / 16 / 16 / 16) by {
            vstd::arithmetic::div_mod::lemma_div_denominator(v as int, 16, 16);
            vstd::arithmetic::div_mod::lemma_div_denominator(v as int, 256, 16);
        }
        assert(v / 256 == v / 16 / 16) by {
            vstd::arithmetic::div_mod::lemma_div_denominator(v as int, 16, 16);
        }
        s.append(hex_digit((v >> 12) & 0xF));
        s.append(hex_digit((v >> 8) & 0xF));
    }
    assert((v >> 4u16) & 0xFu16 == (v / 16) % 16) by (bit_vector);
    assert(v & 0xFu16 == v % 16) by (bit_vector);
    s.append(hex_digit((v >> 4) & 0xF));
    s.append(hex_digit(v & 0xF));
    assert(final(s)@ =~= old(s)@ + hex_spec(v as int, width as nat));
}

/// Appends `n` spaces.
pub fn push_spaces(s: &mut String, n: usize)
    ensures
        final(s)@ == old(s)@ + spaces(n as nat),
{
    proof {
        reveal_strlit(" ");
    }
    let mut i: usize = 0;
    while i < n
        invariant
            i <= n,
            s@ == old(s)@ + Seq::new(i as nat, |k: int| ' '),
        decreases n - i,
    {
        proof {
            reveal_strlit(" ");
        }
        s.append(" ");
        i += 1;
        assert(s@ =~= old(s)@ + Seq::new(i as nat, |k: int| ' '));
    }
}

/// `n` spaces.
pub open spec fn spaces(n: nat) -> Seq<char> {
    Seq::new(n, |i: int| ' ')
}

/// Appends `t` and then spaces until it takes up `width` characters.
pub fn push_padded(s: &mut String, t: &str, width: usize)
    ensures
        final(s)@ == old(s)@ + t@ + spaces(if t@.len() < width { (width - t@.len()) as nat } else { 0 }),
{
    s.append(t);
    let n = t.unicode_len();
    if n < width {
        push_spaces(s, width - n);
    } else {
        assert(s@ =~= old(s)@ + t@ + spaces(0));
    }
}

/// The decimal digits of `v`, most significant first.
pub open spec fn dec_spec(v: nat) -> Seq<char>
    decreases v,
{
    if v < 10 {
        seq![hex_char(v as int)]
    } else {
        dec_spec(v / 10) + seq![hex_char((v % 10) as int)]
    }
}

/// Appends the decimal digits of `v`.
pub fn push_unsigned(s: &mut String, v: u32)
    ensures
        final(s)@ == old(s)@ + dec_spec(v as nat),
    decreases v,
{
    if v >= 10 {
        push_unsigned(s, v / 10);
    }
    let ghost mid = s@;
    s.append(hex_digit((v % 10) as u16));
    assert(s@ =~= old(s)@ + dec_spec(v as nat));
}

/// Appends the decimal representation of `v`, with a minus sign when negative.
pub fn push_signed(s: &mut String, v: i32)
    ensures
        final(s)@ == old(s)@ + if v < 0 { seq!['-'] + dec_spec((0 - v) as nat) } else { dec_spec(v as nat) },
{
    if v < 0 {
        proof {
            reveal_strlit("-");
        }
        s.append("-");
        push_unsigned(s, (0i64 - v as i64) as u32);
        assert(s@ =~= old(s)@ + (seq!['-'] + dec_spec((0 - v) as nat)));
    } else {
        push_unsigned(s, v as u32);
    }
}

/// The character that byte `b` shows as in a dump: itself when printable ASCII, else '.'.
pub open spec fn printable_char(b: u8) -> char {
    if 32 <= b <= 126 {
        seq![' ', '!', '"', '#', '$', '%', '&', '\'', '(', ')', '*', '+', ',', '-', '.', '/', '0', '1', '2', '3', '4', '5', '6', '7', '8', '9', ':', ';', '<', '=', '>', '?', '@', 'A', 'B', 'C', 'D', 'E', 'F', 'G', 'H', 'I', 'J', 'K', 'L', 'M', 'N', 'O', 'P', 'Q', 'R', 'S', 'T', 'U', 'V', 'W', 'X', 'Y', 'Z', '[', '\\', ']', '^', '_', '`', 'a', 'b', 'c', 'd', 'e', 'f', 'g', 'h', 'i', 'j', 'k', 'l', 'm', 'n', 'o', 'p', 'q', 'r', 's', 't', 'u', 'v', 'w', 'x', 'y', 'z', '{', '|', '}', '~'][b - 32]
    } else {
        '.'
    }
}

/// The character that byte `b` shows as in a dump: itself when printable ASCII, else '.'.
pub fn printable(b: u8) -> (r: &'static str)
    ensures
        r@ == seq![printable_char(b)],
{
    proof {
        reveal_strlit(" "); reveal_strlit("!"); reveal_strlit("\""); reveal_strlit("#"); reveal_strlit("$"); reveal_strlit("%"); reveal_strlit("&"); reveal_strlit("'"); reveal_strlit("("); reveal_strlit(")"); reveal_strlit("*"); reveal_strlit("+"); reveal_strlit(","); reveal_strlit("-"); reveal_strlit("."); reveal_strlit("/"); reveal_strlit("0"); reveal_strlit("1"); reveal_strlit("2"); reveal_strlit("3"); reveal_strlit("4"); reveal_strlit("5"); reveal_strlit("6"); reveal_strlit("7"); reveal_strlit("8"); reveal_strlit("9"); reveal_strlit(":"); reveal_strlit(";"); reveal_strlit("<"); reveal_strlit("="); reveal_strlit(">"); reveal_strlit("?"); reveal_strlit("@"); reveal_strlit("A"); reveal_strlit("B"); reveal_strlit("C"); reveal_strlit("D"); reveal_strlit("E"); reveal_strlit("F"); reveal_strlit("G"); reveal_strlit("H"); reveal_strlit("I"); reveal_strlit("J"); reveal_strlit("K"); reveal_strlit("L"); reveal_strlit("M"); reveal_strlit("N"); reveal_strlit("O"); reveal_strlit("P"); reveal_strlit("Q"); reveal_strlit("R"); reveal_strlit("S"); reveal_strlit("T"); reveal_strlit("U"); reveal_strlit("V"); reveal_strlit("W"); reveal_strlit("X"); reveal_strlit("Y"); reveal_strlit("Z"); reveal_strlit("["); reveal_strlit("\\"); reveal_strlit("]"); reveal_strlit("^"); reveal_strlit("_"); reveal_strlit("`"); reveal_strlit("a"); reveal_strlit("b"); reveal_strlit("c"); reveal_strlit("d"); reveal_strlit("e"); reveal_strlit("f"); reveal_strlit("g"); reveal_strlit("h"); reveal_strlit("i"); reveal_strlit("j"); reveal_strlit("k"); reveal_strlit("l"); reveal_strlit("m"); reveal_strlit("n"); reveal_strlit("o"); reveal_strlit("p"); reveal_strlit("q"); reveal_strlit("r"); reveal_strlit("s"); reveal_strlit("t"); reveal_strlit("u"); reveal_strlit("v"); reveal_strlit("w"); reveal_strlit("x"); reveal_strlit("y"); reveal_strlit("z"); reveal_strlit("{"); reveal_strlit("|"); reveal_strlit("}"); reveal_strlit("~"); reveal_strlit(".");
    }
    match b {
        32 => " ",
        33 => "!",
        34 => "\"",
        35 => "#",
        36 => "$",
        37 => "%",
        38 => "&",
        39 => "'",
        40 => "(",
        41 => ")",
        42 => "*",
        43 => "+",
        44 => ",",
        45 => "-",
        46 => ".",
        47 => "/",
        48 => "0",
        49 => "1",
        50 => "2",
        51 => "3",
        52 => "4",
        53 => "5",
        54 => "6",
        55 => "7",
        56 => "8",
        57 => "9",
        58 => ":",
        59 => ";",
        60 => "<",
        61 => "=",
        62 => ">",
        63 => "?",
        64 => "@",
        65 => "A",
        66 => "B",
        67 => "C",
        68 => "D",
        69 => "E",
        70 => "F",
        71 => "G",
        72 => "H",
        73 => "I",
        74 => "J",
        75 => "K",
        76 => "L",
        77 => "M",
        78 => "N",
        79 => "O",
        80 => "P",
        81 => "Q",
        82 => "R",
        83 => "S",
        84 => "T",
        85 => "U",
        86 => "V",
        87 => "W",
        88 => "X",
        89 => "Y",
        90 => "Z",
        91 => "[",
        92 => "\\",
        93 => "]",
        94 => "^",
        95 => "_",
        96 => "`",
        97 => "a",
        98 => "b",
        99 => "c",
        100 => "d",
        101 => "e",
        102 => "f",
        103 => "g",
        104 => "h",
        105 => "i",
        106 => "j",
        107 => "k",
        108 => "l",
        109 => "m",
        110 => "n",
        111 => "o",
        112 => "p",
        113 => "q",
        114 => "r",
        115 => "s",
        116 => "t",
        117 => "u",
        118 => "v",
        119 => "w",
        120 => "x",
        121 => "y",
        122 => "z",
        123 => "{",
        124 => "|",
        125 => "}",
        126 => "~",
        _ => ".",
    }
}

} // verus!
