//! Small verified text utilities: character-exact string comparison,
//! decimal formatting, and JSON string escaping.

use vstd::prelude::*;

verus! {

/// Character-by-character equality of two string slices.
pub fn str_eq(a: &str, b: &str) -> (r: bool)
    ensures
        r == (a@ == b@),
{
    let na = a.unicode_len();
    let nb = b.unicode_len();
    if na != nb {
        return false;
    }
    let mut i: usize = 0;
    while i < na
        invariant
            na == a@.len(),
            nb == b@.len(),
            na == nb,
            i <= na,
            forall|k: int| 0 <= k < i ==> a@[k] == b@[k],
        decreases na - i,
    {
        if a.get_char(i) != b.get_char(i) {
            return false;
        }
        i = i + 1;
    }
    proof {
        assert(a@ =~= b@);
    }
    true
}

/// The character for one decimal digit.
pub open spec fn dec_digit_char(d: int) -> char {
    if d == 0 {
        '0'
    } else if d == 1 {
        '1'
    } else if d == 2 {
        '2'
    } else if d == 3 {
        '3'
    } else if d == 4 {
        '4'
    } else if d == 5 {
        '5'
    } else if d == 6 {
        '6'
    } else if d == 7 {
        '7'
    } else if d == 8 {
        '8'
    } else {
        '9'
    }
}

/// The decimal rendering of a nonnegative number, most significant digit
/// first, without leading zeros (a lone zero for zero itself).
pub open spec fn dec_str(n: int) -> Seq<char>
    decreases n,
{
    if n < 10 {
        seq![dec_digit_char(n)]
    } else {
        dec_str(n / 10).push(dec_digit_char(n % 10))
    }
}

/// The decimal rendering of a signed number: a leading minus for negatives.
pub open spec fn dec_str_signed(n: int) -> Seq<char> {
    if n < 0 {
        seq!['-'] + dec_str(-n)
    } else {
        dec_str(n)
    }
}

/// One decimal digit as a string slice.
fn dec_digit_str(d: u64) -> (r: &'static str)
    requires
        d < 10,
    ensures
        r@ == seq![dec_digit_char(d as int)],
{
    if d == 0 {
        let r = "0";
        proof {
            reveal_strlit("0");
            assert(r@ =~= seq!['0']);
        }
        r
    } else if d == 1 {
        let r = "1";
        proof {
            reveal_strlit("1");
            assert(r@ =~= seq!['1']);
        }
        r
    } else if d == 2 {
        let r = "2";
        proof {
            reveal_strlit("2");
            assert(r@ =~= seq!['2']);
        }
        r
    } else if d == 3 {
        let r = "3";
        proof {
            reveal_strlit("3");
            assert(r@ =~= seq!['3']);
        }
        r
    } else if d == 4 {
        let r = "4";
        proof {
            reveal_strlit("4");
            assert(r@ =~= seq!['4']);
        }
        r
    } else if d == 5 {
        let r = "5";
        proof {
            reveal_strlit("5");
            assert(r@ =~= seq!['5']);
        }
        r
    } else if d == 6 {
        let r = "6";
        proof {
            reveal_strlit("6");
            assert(r@ =~= seq!['6']);
        }
        r
    } else if d == 7 {
        let r = "7";
        proof {
            reveal_strlit("7");
            assert(r@ =~= seq!['7']);
        }
        r
    } else if d == 8 {
        let r = "8";
        proof {
            reveal_strlit("8");
            assert(r@ =~= seq!['8']);
        }
        r
    } else {
        let r = "9";
        proof {
            reveal_strlit("9");
            assert(r@ =~= seq!['9']);
        }
        r
    }
}

/// Renders a number in decimal.
pub fn format_u64(n: u64) -> (s: String)
    ensures
        s@ == dec_str(n as int),
    decreases n,
{
    if n < 10 {
        dec_digit_str(n).to_owned()
    } else {
        proof {
            assert(n / 10 < n) by (nonlinear_arith)
                requires
                    n >= 10,
            ;
        }
        let mut s = format_u64(n / 10);
        s.append(dec_digit_str(n % 10));
        proof {
            assert(dec_str(n as int) =~= dec_str(n as int / 10) + seq![
                dec_digit_char(n as int % 10),
            ]);
        }
        s
    }
}

/// Renders a signed number in decimal.
pub fn format_i64(n: i64) -> (s: String)
    requires
        n > i64::MIN,
    ensures
        s@ == dec_str_signed(n as int),
{
    if n < 0 {
        let mut s = String::new();
        let minus = "-";
        proof {
            reveal_strlit("-");
            assert(minus@ =~= seq!['-']);
        }
        s.append(minus);
        s.append(format_u64((-n) as u64).as_str());
        proof {
            assert(s@ =~= seq!['-'] + dec_str(-n as int));
        }
        s
    } else {
        format_u64(n as u64)
    }
}

/// The character for one hexadecimal digit, lower case.
pub open spec fn hex_digit_char(d: int) -> char {
    if d < 10 {
        dec_digit_char(d)
    } else if d == 10 {
        'a'
    } else if d == 11 {
        'b'
    } else if d == 12 {
        'c'
    } else if d == 13 {
        'd'
    } else if d == 14 {
        'e'
    } else {
        'f'
    }
}

/// One hexadecimal digit as a string slice.
fn hex_digit_str(d: u64) -> (r: &'static str)
    requires
        d < 16,
    ensures
        r@ == seq![hex_digit_char(d as int)],
{
    if d < 10 {
        dec_digit_str(d)
    } else if d == 10 {
        let r = "a";
        proof {
            reveal_strlit("a");
            assert(r@ =~= seq!['a']);
        }
        r
    } else if d == 11 {
        let r = "b";
        proof {
            reveal_strlit("b");
            assert(r@ =~= seq!['b']);
        }
        r
    } else if d == 12 {
        let r = "c";
        proof {
            reveal_strlit("c");
            assert(r@ =~= seq!['c']);
        }
        r
    } else if d == 13 {
        let r = "d";
        proof {
            reveal_strlit("d");
            assert(r@ =~= seq!['d']);
        }
        r
    } else if d == 14 {
        let r = "e";
        proof {
            reveal_strlit("e");
            assert(r@ =~= seq!['e']);
        }
        r
    } else {
        let r = "f";
        proof {
            reveal_strlit("f");
            assert(r@ =~= seq!['f']);
        }
        r
    }
}

/// How one character appears inside a JSON string literal: quotes and
/// backslashes are escaped, the named control characters take their short
/// escapes, any other control character its `\u00XX` form, and everything
/// else stands as itself.
pub open spec fn json_escaped_char(c: char) -> Seq<char> {
    if c == '"' {
        seq!['\\', '"']
    } else if c == '\\' {
        seq!['\\', '\\']
    } else if c == '\u{8}' {
        seq!['\\', 'b']
    } else if c == '\u{c}' {
        seq!['\\', 'f']
    } else if c == '\n' {
        seq!['\\', 'n']
    } else if c == '\r' {
        seq!['\\', 'r']
    } else if c == '\t' {
        seq!['\\', 't']
    } else if (c as u32) < 32 {
        seq!['\\', 'u', '0', '0', hex_digit_char(c as u32 as int / 16), hex_digit_char(
            c as u32 as int % 16,
        )]
    } else {
        seq![c]
    }
}

/// A text with every character escaped for a JSON string literal.
pub open spec fn json_escaped(s: Seq<char>) -> Seq<char>
    decreases s.len(),
{
    if s.len() == 0 {
        Seq::empty()
    } else {
        json_escaped(s.drop_last()) + json_escaped_char(s.last())
    }
}

/// Escapes a text for inclusion inside a JSON string literal.
pub fn json_escape(s: &str) -> (r: String)
    ensures
        r@ == json_escaped(s@),
{
    let n = s.unicode_len();
    let mut out = String::new();
    let mut i: usize = 0;
    proof {
        assert(s@.take(0) =~= Seq::<char>::empty());
    }
    while i < n
        invariant
            n == s@.len(),
            i <= n,
            out@ == json_escaped(s@.take(i as int)),
        decreases n - i,
    {
        let c = s.get_char(i);
        if c == '"' {
            let piece = "\\\"";
            proof {
                reveal_strlit("\\\"");
                assert(piece@ =~= seq!['\\', '"']);
            }
            out.append(piece);
        } else if c == '\\' {
            let piece = "\\\\";
            proof {
                reveal_strlit("\\\\");
                assert(piece@ =~= seq!['\\', '\\']);
            }
            out.append(piece);
        } else if c == '\u{8}' {
            let piece = "\\b";
            proof {
                reveal_strlit("\\b");
                assert(piece@ =~= seq!['\\', 'b']);
            }
            out.append(piece);
        } else if c == '\u{c}' {
            let piece = "\\f";
            proof {
                reveal_strlit("\\f");
                assert(piece@ =~= seq!['\\', 'f']);
            }
            out.append(piece);
        } else if c == '\n' {
            let piece = "\\n";
            proof {
                reveal_strlit("\\n");
                assert(piece@ =~= seq!['\\', 'n']);
            }
            out.append(piece);
        } else if c == '\r' {
            let piece = "\\r";
            proof {
                reveal_strlit("\\r");
                assert(piece@ =~= seq!['\\', 'r']);
            }
            out.append(piece);
        } else if c == '\t' {
            let piece = "\\t";
            proof {
                reveal_strlit("\\t");
                assert(piece@ =~= seq!['\\', 't']);
            }
            out.append(piece);
        } else if (c as u32) < 32 {
            let piece = "\\u00";
            proof {
                reveal_strlit("\\u00");
                assert(piece@ =~= seq!['\\', 'u', '0', '0']);
            }
            out.append(piece);
            let code = c as u32;
            out.append(hex_digit_str((code / 16) as u64));
            out.append(hex_digit_str((code % 16) as u64));
        } else {
            out.append(s.substring_char(i, i + 1));
            proof {
                assert(s@.subrange(i as int, i as int + 1) =~= seq![s@[i as int]]);
            }
        }
        proof {
            assert(s@.take(i + 1).drop_last() =~= s@.take(i as int));
            assert(s@.take(i + 1).last() == s@[i as int]);
        }
        i = i + 1;
    }
    proof {
        assert(s@.take(n as int) =~= s@);
    }
    out
}

} // verus!
