//! Verified JSON string escaping and small string helpers.
//!
//! The proxy frames its own JSON payloads (the scan-request envelope and the
//! synthesized refusal), so the one piece of JSON machinery it needs is a
//! correct string escaper: `"` and `\` are escaped, the common control
//! characters get their short forms, and the remaining control characters
//! are written as `\u00XX`.

use vstd::prelude::*;
use vstd::string::*;

verus! {

/// The lowercase hexadecimal digit character for `d`.
pub open spec fn hex_digit(d: int) -> char
    recommends
        0 <= d < 16,
{
    "0123456789abcdef"@[d]
}

/// JSON escape of a single character.
pub open spec fn esc_char(c: char) -> Seq<char> {
    if c == '"' {
        seq!['\\', '"']
    } else if c == '\\' {
        seq!['\\', '\\']
    } else if c == '\n' {
        seq!['\\', 'n']
    } else if c == '\r' {
        seq!['\\', 'r']
    } else if c == '\t' {
        seq!['\\', 't']
    } else if (c as u32) < 32 {
        seq!['\\', 'u', '0', '0', hex_digit((c as u32) as int / 16), hex_digit((c as u32) as int % 16)]
    } else {
        seq![c]
    }
}

/// JSON escape of a character sequence: each character escaped in order.
pub open spec fn esc(s: Seq<char>) -> Seq<char>
    decreases s.len(),
{
    if s.len() == 0 {
        Seq::empty()
    } else {
        esc(s.drop_last()) + esc_char(s.last())
    }
}

/// Escapes a string for inclusion inside a JSON string literal.
pub fn json_escape(s: &str) -> (out: String)
    ensures
        out@ == esc(s@),
{
    let n = s.unicode_len();
    let mut out = String::new();
    let mut i: usize = 0;
    while i < n
        invariant
            n == s@.len(),
            i <= n,
            out@ == esc(s@.take(i as int)),
        decreases n - i,
    {
        let c = s.get_char(i);
        if c == '"' {
            out.append("\\\"");
            proof {
                reveal_strlit("\\\"");
                assert(out@ == esc(s@.take(i as int)) + esc_char(c));
            }
        } else if c == '\\' {
            out.append("\\\\");
            proof {
                reveal_strlit("\\\\");
                assert(out@ == esc(s@.take(i as int)) + esc_char(c));
            }
        } else if c == '\n' {
            out.append("\\n");
            proof {
                reveal_strlit("\\n");
                assert(out@ == esc(s@.take(i as int)) + esc_char(c));
            }
        } else if c == '\r' {
            out.append("\\r");
            proof {
                reveal_strlit("\\r");
                assert(out@ == esc(s@.take(i as int)) + esc_char(c));
            }
        } else if c == '\t' {
            out.append("\\t");
            proof {
                reveal_strlit("\\t");
                assert(out@ == esc(s@.take(i as int)) + esc_char(c));
            }
        } else if (c as u32) < 32 {
            let code = c as u32;
            let hex = "0123456789abcdef";
            proof {
                reveal_strlit("0123456789abcdef");
                reveal_strlit("\\u00");
            }
            out.append("\\u00");
            let hi = (code / 16) as usize;
            let lo = (code % 16) as usize;
            let hd = hex.substring_char(hi, hi + 1);
            out.append(hd);
            let ld = hex.substring_char(lo, lo + 1);
            out.append(ld);
            proof {
                assert(hd@ =~= seq![hex_digit(hi as int)]);
                assert(ld@ =~= seq![hex_digit(lo as int)]);
                assert(out@ =~= esc(s@.take(i as int)) + esc_char(c));
            }
        } else {
            let piece = s.substring_char(i, i + 1);
            out.append(piece);
            proof {
                assert(piece@ =~= seq![s@[i as int]]);
                assert(out@ =~= esc(s@.take(i as int)) + esc_char(c));
            }
        }
        proof {
            assert(s@.take(i + 1).drop_last() =~= s@.take(i as int));
            assert(s@.take(i + 1).last() == s@[i as int]);
        }
        i = i + 1;
    }
    proof {
        assert(s@.take(n as int) =~= s@);
    }
    out
}

/// Every character of escaped text is printable: the raw control
/// characters of the input never appear, so an embedded string cannot
/// break the JSON framing around it.
pub proof fn lemma_esc_no_control(s: Seq<char>)
    ensures
        forall|i: int| 0 <= i < esc(s).len() ==> (#[trigger] esc(s)[i]) as u32 >= 32,
    decreases s.len(),
{
    reveal_strlit("0123456789abcdef");
    assert(forall|d: int| 0 <= d < 16 ==> (#[trigger] hex_digit(d)) as u32 >= 32) by {
        assert forall|d: int| 0 <= d < 16 implies (#[trigger] hex_digit(d)) as u32 >= 32 by {
            assert(hex_digit(d) == "0123456789abcdef"@[d]);
        }
    }
    if s.len() > 0 {
        lemma_esc_no_control(s.drop_last());
        let head = esc(s.drop_last());
        let tail = esc_char(s.last());
        assert forall|i: int| 0 <= i < esc(s).len() implies (#[trigger] esc(s)[i]) as u32
            >= 32 by {
            if i < head.len() {
                assert(esc(s)[i] == head[i]);
            } else {
                assert(esc(s)[i] == tail[i - head.len()]);
            }
        }
    }
}

/// Every quote in escaped text is preceded by a backslash: an embedded
/// string can never close the JSON string literal that carries it.
pub proof fn lemma_esc_quotes_escaped(s: Seq<char>)
    ensures
        forall|i: int|
            0 <= i < esc(s).len() && (#[trigger] esc(s)[i]) == '"' ==> i > 0 && esc(s)[i - 1]
                == '\\',
    decreases s.len(),
{
    reveal_strlit("0123456789abcdef");
    assert(forall|d: int| 0 <= d < 16 ==> (#[trigger] hex_digit(d)) != '"') by {
        assert forall|d: int| 0 <= d < 16 implies (#[trigger] hex_digit(d)) != '"' by {
            assert(hex_digit(d) == "0123456789abcdef"@[d]);
        }
    }
    if s.len() > 0 {
        lemma_esc_quotes_escaped(s.drop_last());
        let head = esc(s.drop_last());
        let tail = esc_char(s.last());
        assert(tail[0] != '"');
        assert forall|i: int|
            0 <= i < esc(s).len() && (#[trigger] esc(s)[i]) == '"' implies i > 0 && esc(s)[i - 1]
            == '\\' by {
            if i < head.len() {
                assert(esc(s)[i] == head[i]);
                assert(esc(s)[i - 1] == head[i - 1]);
            } else {
                assert(esc(s)[i] == tail[i - head.len()]);
                assert(i - head.len() == 1 && tail[0] == '\\');
                assert(esc(s)[i - 1] == tail[0]);
            }
        }
    }
}

/// String equality on `&str`, usable where only slices are at hand.
pub fn str_eq(a: &str, b: &str) -> (r: bool)
    ensures
        r <==> a@ == b@,
{
    let sa: String = a.to_owned();
    let sb: String = b.to_owned();
    sa == sb
}

} // verus!
