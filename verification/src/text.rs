//! Decimal and fixed-point text rendering, and label-value escaping,
//! for the metrics exposition text format.
use vstd::prelude::*;
use vstd::string::StrSliceExecFns;
use vstd::string::StringExecFns;

verus! {

/// The decimal digit character for `d` (0 through 9).
pub open spec fn digit_char(d: nat) -> char {
    if d == 0 {
        '0'
    } else if d == 1 {
        '1'
    } else if d == 2 {
        '2'
    } else if d == 3 {
        '3'
    } else if d == 4 {
        '4'
    } else if d == 5 {
        '5'
    } else if d == 6 {
        '6'
    } else if d == 7 {
        '7'
    } else if d == 8 {
        '8'
    } else {
        '9'
    }
}

/// Decimal rendering of a natural number, most significant digit first,
/// no leading zeros (a single `0` for zero).
pub open spec fn dec_str(n: nat) -> Seq<char>
    decreases n,
{
    if n < 10 {
        seq![digit_char(n)]
    } else {
        dec_str(n / 10) + seq![digit_char(n % 10)]
    }
}

/// Exactly `width` decimal digits of `n`, least significant last,
/// left-padded with zeros (digits beyond `width` are dropped).
pub open spec fn pad_str(n: nat, width: nat) -> Seq<char>
    decreases width,
{
    if width == 0 {
        Seq::empty()
    } else {
        pad_str(n / 10, (width - 1) as nat) + seq![digit_char(n % 10)]
    }
}

/// The fractional digits of `f` out of `width` places, with trailing
/// zeros removed; empty when `f` is zero.
pub open spec fn frac_str(f: nat, width: nat) -> Seq<char>
    decreases width,
{
    if width == 0 {
        Seq::empty()
    } else if f % 10 == 0 {
        frac_str(f / 10, (width - 1) as nat)
    } else {
        pad_str(f, width)
    }
}

/// A fixed-point value `v` in units of `1/scale`, rendered as an
/// integer part and, when nonzero, a dot and the trimmed fraction of
/// `width` places.
pub open spec fn fixed_str(v: nat, scale: nat, width: nat) -> Seq<char> {
    if scale == 0 || v % scale == 0 {
        dec_str(v / scale)
    } else {
        dec_str(v / scale) + seq!['.'] + frac_str(v % scale, width)
    }
}

fn digit_lit(d: u64) -> (r: &'static str)
    requires
        d < 10,
    ensures
        r@ == seq![digit_char(d as nat)],
{
    if d == 0 {
        proof {
            reveal_strlit("0");
            assert("0"@ =~= seq![digit_char(0)]);
        }
        "0"
    } else if d == 1 {
        proof {
            reveal_strlit("1");
            assert("1"@ =~= seq![digit_char(1)]);
        }
        "1"
    } else if d == 2 {
        proof {
            reveal_strlit("2");
            assert("2"@ =~= seq![digit_char(2)]);
        }
        "2"
    } else if d == 3 {
        proof {
            reveal_strlit("3");
            assert("3"@ =~= seq![digit_char(3)]);
        }
        "3"
    } else if d == 4 {
        proof {
            reveal_strlit("4");
            assert("4"@ =~= seq![digit_char(4)]);
        }
        "4"
    } else if d == 5 {
        proof {
            reveal_strlit("5");
            assert("5"@ =~= seq![digit_char(5)]);
        }
        "5"
    } else if d == 6 {
        proof {
            reveal_strlit("6");
            assert("6"@ =~= seq![digit_char(6)]);
        }
        "6"
    } else if d == 7 {
        proof {
            reveal_strlit("7");
            assert("7"@ =~= seq![digit_char(7)]);
        }
        "7"
    } else if d == 8 {
        proof {
            reveal_strlit("8");
            assert("8"@ =~= seq![digit_char(8)]);
        }
        "8"
    } else {
        proof {
            reveal_strlit("9");
            assert("9"@ =~= seq![digit_char(9)]);
        }
        "9"
    }
}

/// Render `n` in decimal.
pub fn fmt_u64(n: u64) -> (s: String)
    ensures
        s@ == dec_str(n as nat),
    decreases n,
{
    if n < 10 {
        digit_lit(n).to_owned()
    } else {
        let mut s = fmt_u64(n / 10);
        s.append(digit_lit(n % 10));
        s
    }
}

/// Render exactly `width` decimal digits of `n`, left-padded with zeros.
pub fn fmt_pad(n: u64, width: u64) -> (s: String)
    ensures
        s@ == pad_str(n as nat, width as nat),
    decreases width,
{
    if width == 0 {
        String::new()
    } else {
        let mut s = fmt_pad(n / 10, width - 1);
        s.append(digit_lit(n % 10));
        s
    }
}

/// Render the fraction `f` of `width` places with trailing zeros removed.
pub fn fmt_frac(f: u64, width: u64) -> (s: String)
    ensures
        s@ == frac_str(f as nat, width as nat),
    decreases width,
{
    if width == 0 {
        String::new()
    } else if f % 10 == 0 {
        fmt_frac(f / 10, width - 1)
    } else {
        fmt_pad(f, width)
    }
}

/// Render the fixed-point value `v` in units of `1/scale` with `width`
/// fractional places.
pub fn fmt_fixed(v: u64, scale: u64, width: u64) -> (s: String)
    requires
        scale > 0,
    ensures
        s@ == fixed_str(v as nat, scale as nat, width as nat),
{
    let mut s = fmt_u64(v / scale);
    if v % scale != 0 {
        proof {
            reveal_strlit(".");
            assert("."@ =~= seq!['.']);
        }
        s.append(".");
        s.append(fmt_frac(v % scale, width).as_str());
        proof {
            assert(s@ =~= fixed_str(v as nat, scale as nat, width as nat));
        }
    }
    s
}

/// How a single character appears inside a quoted label value:
/// backslash, double quote and newline are escaped.
pub open spec fn escape_char(c: char) -> Seq<char> {
    if c == '\\' {
        seq!['\\', '\\']
    } else if c == '"' {
        seq!['\\', '"']
    } else if c == '\n' {
        seq!['\\', 'n']
    } else {
        seq![c]
    }
}

/// A string as it appears inside a quoted label value.
pub open spec fn escape_str(s: Seq<char>) -> Seq<char>
    decreases s.len(),
{
    if s.len() == 0 {
        Seq::empty()
    } else {
        escape_str(s.drop_last()) + escape_char(s.last())
    }
}

/// Relies on `String::push` from std: appends the given character to
/// the end of the string.
#[verifier::external_body]
fn push_char(s: &mut String, c: char)
    ensures
        final(s)@ == old(s)@.push(c),
{
    s.push(c);
}

/// Escape a label value for the exposition text format.
pub fn escape_label(s: &str) -> (r: String)
    ensures
        r@ == escape_str(s@),
{
    let n = s.unicode_len();
    let mut r = String::new();
    let mut i: usize = 0;
    while i < n
        invariant
            n == s@.len(),
            i <= n,
            r@ == escape_str(s@.take(i as int)),
        decreases n - i,
    {
        let c = s.get_char(i);
        if c == '\\' {
            proof {
                reveal_strlit("\\\\");
                assert("\\\\"@ =~= escape_char('\\'));
            }
            r.append("\\\\");
        } else if c == '"' {
            proof {
                reveal_strlit("\\\"");
                assert("\\\""@ =~= escape_char('"'));
            }
            r.append("\\\"");
        } else if c == '\n' {
            proof {
                reveal_strlit("\\n");
                assert("\\n"@ =~= escape_char('\n'));
            }
            r.append("\\n");
        } else {
            push_char(&mut r, c);
        }
        proof {
            assert(s@.take(i + 1 as int).drop_last() =~= s@.take(i as int));
            assert(s@.take(i + 1 as int).last() == c);
            assert(r@ =~= escape_str(s@.take(i + 1 as int)));
        }
        i = i + 1;
    }
    proof {
        assert(s@.take(n as int) =~= s@);
    }
    r
}

} // verus!
