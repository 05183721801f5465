//! Rendering of a [`JsonValue`] as compact JSON text.
//!
//! The grammar emitted here is the library's wire format: one JSON document
//! per line, no spaces, object members in the order the tree holds them,
//! strings escaped as JSON requires. [`json_text`] is the specification of
//! the rendering and [`append_json`] the implementation proved against it.

use vstd::prelude::*;

use crate::json::{
    lemma_view_arr_index, lemma_view_arr_len, lemma_view_obj_index, lemma_view_obj_len, view_arr,
    view_obj, JsonValue, SpecJson,
};

verus! {

/// The decimal digit character for `d`.
pub open spec fn dec_digit(d: int) -> char {
    if d == 0 {
        '0'
    } else if d == 1 {
        '1'
    } else if d == 2 {
        '2'
    } else if d == 3 {
        '3'
    } else if d == 4 {
        '4'
    } else if d == 5 {
        '5'
    } else if d == 6 {
        '6'
    } else if d == 7 {
        '7'
    } else if d == 8 {
        '8'
    } else {
        '9'
    }
}

/// The decimal text of a non-negative integer.
pub open spec fn dec_text(n: int) -> Seq<char>
    decreases n,
{
    if n < 10 {
        seq![dec_digit(n)]
    } else {
        dec_text(n / 10) + seq![dec_digit(n % 10)]
    }
}

/// The decimal text of a signed integer: a minus sign, then the digits.
pub open spec fn int_text(n: int) -> Seq<char> {
    if n < 0 {
        seq!['-'] + dec_text(-n)
    } else {
        dec_text(n)
    }
}

/// The hexadecimal digit character for `d` (lower case).
pub open spec fn hex_digit(d: int) -> char {
    if d < 10 {
        dec_digit(d)
    } else if d == 10 {
        'a'
    } else if d == 11 {
        'b'
    } else if d == 12 {
        'c'
    } else if d == 13 {
        'd'
    } else if d == 14 {
        'e'
    } else {
        'f'
    }
}

/// How one character appears inside a JSON string literal.
pub open spec fn escape_char(c: char) -> Seq<char> {
    if c == '"' {
        "\\\""@
    } else if c == '\\' {
        "\\\\"@
    } else if c == '\n' {
        "\\n"@
    } else if c == '\r' {
        "\\r"@
    } else if c == '\t' {
        "\\t"@
    } else if c == '\u{8}' {
        "\\b"@
    } else if c == '\u{c}' {
        "\\f"@
    } else if (c as u32) < 0x20 {
        "\\u00"@ + seq![hex_digit((c as u32) as int / 16)] + seq![hex_digit((c as u32) as int % 16)]
    } else {
        seq![c]
    }
}

/// How the first `n` characters of a string appear inside a JSON string
/// literal.
pub open spec fn escape_prefix(s: Seq<char>, n: int) -> Seq<char>
    decreases n,
{
    if n <= 0 || n > s.len() {
        Seq::empty()
    } else {
        escape_prefix(s, n - 1) + escape_char(s[n - 1])
    }
}

/// How a whole string appears inside a JSON string literal.
pub open spec fn escape_text(s: Seq<char>) -> Seq<char> {
    escape_prefix(s, s.len() as int)
}

/// The JSON text of a model value.
pub open spec fn json_text(v: SpecJson) -> Seq<char>
    decreases v, 0nat,
{
    match v {
        SpecJson::Null => "null"@,
        SpecJson::Bool(b) => if b {
            "true"@
        } else {
            "false"@
        },
        SpecJson::Num(n) => int_text(n),
        SpecJson::NumText(s) => s,
        SpecJson::Str(s) => "\""@ + escape_text(s) + "\""@,
        SpecJson::Arr(elems) => "["@ + arr_text(elems, elems.len() as int) + "]"@,
        SpecJson::Obj(pairs) => "{"@ + obj_text(pairs, pairs.len() as int) + "}"@,
    }
}

/// The JSON text of the first `n` elements of an array, commas between them.
pub open spec fn arr_text(elems: Seq<SpecJson>, n: int) -> Seq<char>
    decreases elems, n,
{
    if n <= 0 || n > elems.len() {
        Seq::empty()
    } else if n == 1 {
        json_text(elems[0])
    } else {
        arr_text(elems, n - 1) + ","@ + json_text(elems[n - 1])
    }
}

/// The JSON text of one object member.
pub open spec fn member_text(key: Seq<char>, v: SpecJson) -> Seq<char>
    decreases v, 1nat,
{
    "\""@ + escape_text(key) + "\":"@ + json_text(v)
}

/// The JSON text of the first `n` members of an object, commas between them.
pub open spec fn obj_text(pairs: Seq<(Seq<char>, SpecJson)>, n: int) -> Seq<char>
    decreases pairs, n,
{
    if n <= 0 || n > pairs.len() {
        Seq::empty()
    } else if n == 1 {
        member_text(pairs[0].0, pairs[0].1)
    } else {
        obj_text(pairs, n - 1) + ","@ + member_text(pairs[n - 1].0, pairs[n - 1].1)
    }
}

/// Append the decimal digit character for `d` to `out`.
fn append_digit(d: u64, out: &mut String)
    requires
        d < 10,
    ensures
        final(out)@ == old(out)@ + seq![dec_digit(d as int)],
{
    let piece: &str = match d {
        0 => "0",
        1 => "1",
        2 => "2",
        3 => "3",
        4 => "4",
        5 => "5",
        6 => "6",
        7 => "7",
        8 => "8",
        _ => "9",
    };
    proof {
        reveal_strlit("0");
        reveal_strlit("1");
        reveal_strlit("2");
        reveal_strlit("3");
        reveal_strlit("4");
        reveal_strlit("5");
        reveal_strlit("6");
        reveal_strlit("7");
        reveal_strlit("8");
        reveal_strlit("9");
        assert(piece@ =~= seq![dec_digit(d as int)]);
    }
    out.append(piece);
}

/// Append the decimal text of `n` to `out`.
fn append_dec_u64(n: u64, out: &mut String)
    ensures
        final(out)@ == old(out)@ + dec_text(n as int),
    decreases n,
{
    if n < 10 {
        append_digit(n, out);
    } else {
        append_dec_u64(n / 10, out);
        append_digit(n % 10, out);
        proof {
            assert(final(out)@ == old(out)@ + dec_text(n as int / 10) + seq![
                dec_digit(n as int % 10),
            ]);
            assert(old(out)@ + dec_text(n as int / 10) + seq![dec_digit(n as int % 10)] =~= old(
                out,
            )@ + (dec_text(n as int / 10) + seq![dec_digit(n as int % 10)]));
        }
    }
}

/// Append the decimal text of `n`, with a minus sign when negative, to `out`.
pub fn append_dec_i64(n: i64, out: &mut String)
    ensures
        final(out)@ == old(out)@ + int_text(n as int),
{
    if n < 0 {
        out.append("-");
        let m: u64 = if n == i64::MIN {
            9223372036854775808u64
        } else {
            (-n) as u64
        };
        proof {
            reveal_strlit("-");
            assert(m as int == -(n as int));
        }
        append_dec_u64(m, out);
        proof {
            assert(final(out)@ == old(out)@ + "-"@ + dec_text(m as int));
            assert("-"@ =~= seq!['-']);
            assert(old(out)@ + "-"@ + dec_text(m as int) =~= old(out)@ + (seq!['-'] + dec_text(
                m as int,
            )));
        }
    } else {
        append_dec_u64(n as u64, out);
    }
}

/// Append the hexadecimal digit character for `d` to `out`.
fn append_hex_digit(d: u32, out: &mut String)
    requires
        d < 16,
    ensures
        final(out)@ == old(out)@ + seq![hex_digit(d as int)],
{
    if d < 10 {
        append_digit(d as u64, out);
    } else {
        let piece: &str = match d {
            10 => "a",
            11 => "b",
            12 => "c",
            13 => "d",
            14 => "e",
            _ => "f",
        };
        proof {
            reveal_strlit("a");
            reveal_strlit("b");
            reveal_strlit("c");
            reveal_strlit("d");
            reveal_strlit("e");
            reveal_strlit("f");
            assert(piece@ =~= seq![hex_digit(d as int)]);
        }
        out.append(piece);
    }
}

/// Append the text of `s` as it appears inside a JSON string literal.
fn append_escaped(s: &str, out: &mut String)
    ensures
        final(out)@ == old(out)@ + escape_text(s@),
{
    let n = s.unicode_len();
    let mut i: usize = 0;
    while i < n
        invariant
            n == s@.len(),
            0 <= i <= n,
            out@ == old(out)@ + escape_prefix(s@, i as int),
        decreases n - i,
    {
        let c = s.get_char(i);
        if c == '"' {
            out.append("\\\"");
        } else if c == '\\' {
            out.append("\\\\");
        } else if c == '\n' {
            out.append("\\n");
        } else if c == '\r' {
            out.append("\\r");
        } else if c == '\t' {
            out.append("\\t");
        } else if c == '\u{8}' {
            out.append("\\b");
        } else if c == '\u{c}' {
            out.append("\\f");
        } else if (c as u32) < 0x20 {
            out.append("\\u00");
            let code = c as u32;
            append_hex_digit(code / 16, out);
            append_hex_digit(code % 16, out);
            proof {
                assert(out@ =~= old(out)@ + escape_prefix(s@, i as int) + ("\\u00"@ + seq![
                    hex_digit(code as int / 16),
                ] + seq![hex_digit(code as int % 16)]));
            }
        } else {
            let piece = s.substring_char(i, i + 1);
            proof {
                assert(piece@ =~= seq![s@[i as int]]);
            }
            out.append(piece);
        }
        proof {
            assert(escape_prefix(s@, i + 1 as int) == escape_prefix(s@, i as int) + escape_char(
                s@[i as int],
            ));
            assert(out@ =~= old(out)@ + escape_prefix(s@, i + 1 as int));
        }
        i = i + 1;
    }
}

/// Append the JSON text of `v` to `out`.
pub fn append_json(v: &JsonValue, out: &mut String)
    ensures
        final(out)@ == old(out)@ + json_text(v@),
    decreases *v,
{
    match v {
        JsonValue::Null => out.append("null"),
        JsonValue::Bool(b) => {
            if *b {
                out.append("true");
            } else {
                out.append("false");
            }
        },
        JsonValue::Num(n) => append_dec_i64(*n, out),
        JsonValue::NumText(s) => out.append(s.as_str()),
        JsonValue::Str(s) => {
            out.append("\"");
            append_escaped(s.as_str(), out);
            out.append("\"");
            proof {
                assert(out@ =~= old(out)@ + ("\""@ + escape_text(s@) + "\""@));
            }
        },
        JsonValue::Arr(elems) => {
            out.append("[");
            append_arr(elems, out);
            out.append("]");
            proof {
                let velems = view_arr(elems@, elems@.len() as int);
                lemma_view_arr_len(elems@, elems@.len() as int);
                assert(out@ =~= old(out)@ + ("["@ + arr_text(velems, velems.len() as int) + "]"@));
            }
        },
        JsonValue::Obj(pairs) => {
            out.append("{");
            append_obj(pairs, out);
            out.append("}");
            proof {
                let vpairs = view_obj(pairs@, pairs@.len() as int);
                lemma_view_obj_len(pairs@, pairs@.len() as int);
                assert(out@ =~= old(out)@ + ("{"@ + obj_text(vpairs, vpairs.len() as int) + "}"@));
            }
        },
    }
}

/// Append the comma-separated JSON texts of the elements of `elems` to `out`.
fn append_arr(elems: &Vec<JsonValue>, out: &mut String)
    ensures
        final(out)@ == old(out)@ + arr_text(
            view_arr(elems@, elems@.len() as int),
            elems@.len() as int,
        ),
    decreases *elems,
{
    let ghost velems = view_arr(elems@, elems@.len() as int);
    proof {
        lemma_view_arr_len(elems@, elems@.len() as int);
    }
    let n = elems.len();
    let mut i: usize = 0;
    while i < n
        invariant
            n == elems@.len(),
            0 <= i <= n,
            velems == view_arr(elems@, elems@.len() as int),
            velems.len() == n,
            out@ == old(out)@ + arr_text(velems, i as int),
        decreases n - i,
    {
        proof {
            assert(decreases_to!(*elems => elems@));
            assert(decreases_to!(elems@ => elems@[i as int]));
            lemma_view_arr_index(elems@, elems@.len() as int, i as int);
        }
        let ghost before = out@;
        if i > 0 {
            out.append(",");
            proof {
                reveal_strlit(",");
            }
        }
        append_json(&elems[i], out);
        proof {
            if i > 0 {
                assert(out@ =~= old(out)@ + (arr_text(velems, i as int) + ","@ + json_text(
                    velems[i as int],
                )));
            } else {
                assert(out@ =~= old(out)@ + json_text(velems[0]));
            }
        }
        i = i + 1;
    }
}

/// Append the comma-separated JSON texts of the members of `pairs` to `out`.
fn append_obj(pairs: &Vec<(String, JsonValue)>, out: &mut String)
    ensures
        final(out)@ == old(out)@ + obj_text(
            view_obj(pairs@, pairs@.len() as int),
            pairs@.len() as int,
        ),
    decreases *pairs,
{
    let ghost vpairs = view_obj(pairs@, pairs@.len() as int);
    proof {
        lemma_view_obj_len(pairs@, pairs@.len() as int);
    }
    let n = pairs.len();
    let mut i: usize = 0;
    while i < n
        invariant
            n == pairs@.len(),
            0 <= i <= n,
            vpairs == view_obj(pairs@, pairs@.len() as int),
            vpairs.len() == n,
            out@ == old(out)@ + obj_text(vpairs, i as int),
        decreases n - i,
    {
        proof {
            assert(decreases_to!(*pairs => pairs@));
            assert(decreases_to!(pairs@ => pairs@[i as int]));
            assert(decreases_to!(pairs@[i as int] => pairs@[i as int].1));
            lemma_view_obj_index(pairs@, pairs@.len() as int, i as int);
        }
        if i > 0 {
            out.append(",");
            proof {
                reveal_strlit(",");
            }
        }
        out.append("\"");
        append_escaped(pairs[i].0.as_str(), out);
        out.append("\":");
        append_json(&pairs[i].1, out);
        proof {
            let m = member_text(vpairs[i as int].0, vpairs[i as int].1);
            assert(m == "\""@ + escape_text(pairs@[i as int].0@) + "\":"@ + json_text(
                vpairs[i as int].1,
            ));
            if i > 0 {
                assert(out@ =~= old(out)@ + (obj_text(vpairs, i as int) + ","@ + m));
            } else {
                assert(out@ =~= old(out)@ + m);
            }
        }
        i = i + 1;
    }
}

/// The decimal text of `n`, as a fresh string.
pub fn u64_string(n: u64) -> (r: String)
    ensures
        r@ == dec_text(n as int),
{
    let mut out = String::new();
    append_dec_u64(n, &mut out);
    out
}

/// The JSON text of `v`, as a fresh string.
pub fn to_json_string(v: &JsonValue) -> (r: String)
    ensures
        r@ == json_text(v@),
{
    let mut out = String::new();
    append_json(v, &mut out);
    out
}


/// The numeric value of a decimal digit character, if it is one.
pub open spec fn dec_digit_value(c: char) -> Option<int> {
    if c == '0' {
        Some(0)
    } else if c == '1' {
        Some(1)
    } else if c == '2' {
        Some(2)
    } else if c == '3' {
        Some(3)
    } else if c == '4' {
        Some(4)
    } else if c == '5' {
        Some(5)
    } else if c == '6' {
        Some(6)
    } else if c == '7' {
        Some(7)
    } else if c == '8' {
        Some(8)
    } else if c == '9' {
        Some(9)
    } else {
        None
    }
}

/// The value of the first `n` characters read as decimal digits, most
/// significant first; `None` when one of them is no digit.
pub open spec fn digits_value(s: Seq<char>, n: int) -> Option<int>
    decreases n,
{
    if n <= 0 {
        Some(0)
    } else if n > s.len() {
        None
    } else {
        match (digits_value(s, n - 1), dec_digit_value(s[n - 1])) {
            (Some(v), Some(d)) => Some(v * 10 + d),
            _ => None,
        }
    }
}

/// The number a piece of text denotes in canonical decimal: at least one
/// digit, and no leading zero except for `0` itself.
pub open spec fn dec_value(s: Seq<char>) -> Option<int> {
    if s.len() == 0 {
        None
    } else if s.len() > 1 && s[0] == '0' {
        None
    } else {
        digits_value(s, s.len() as int)
    }
}

/// A digit string's value is never negative.
pub proof fn lemma_digits_value_nonneg(s: Seq<char>, n: int)
    ensures
        digits_value(s, n) matches Some(v) ==> v >= 0,
    decreases n,
{
    if n > 0 && n <= s.len() {
        lemma_digits_value_nonneg(s, n - 1);
        if digits_value(s, n - 1) is Some && dec_digit_value(s[n - 1]) is Some {
            let v = digits_value(s, n - 1)->0;
            let d = dec_digit_value(s[n - 1])->0;
            assert(v * 10 + d >= 0) by (nonlinear_arith)
                requires
                    v >= 0,
                    d >= 0,
            ;
        }
    }
}

/// Reading more digits never shrinks the value.
pub proof fn lemma_digits_value_monotone(s: Seq<char>, i: int, j: int)
    requires
        0 <= i <= j,
    ensures
        match (digits_value(s, i), digits_value(s, j)) {
            (Some(vi), Some(vj)) => vj >= vi,
            (None, Some(_)) => false,
            _ => true,
        },
    decreases j - i,
{
    if j > i {
        lemma_digits_value_monotone(s, i, j - 1);
        lemma_digits_value_nonneg(s, j - 1);
        if digits_value(s, j - 1) is Some && dec_digit_value(s[j - 1]) is Some {
            let v = digits_value(s, j - 1)->0;
            let d = dec_digit_value(s[j - 1])->0;
            assert(v * 10 + d >= v) by (nonlinear_arith)
                requires
                    v >= 0,
                    d >= 0,
            ;
        }
    }
}

/// A non-digit character poisons every longer read.
pub proof fn lemma_digits_value_bad(s: Seq<char>, i: int, j: int)
    requires
        0 <= i < j,
        i < s.len(),
        dec_digit_value(s[i]) is None,
    ensures
        digits_value(s, j) is None,
    decreases j - i,
{
    if j > i + 1 {
        lemma_digits_value_bad(s, i, j - 1);
    }
}

/// Two texts that agree on their first `n` characters read to the same
/// value there.
proof fn lemma_digits_value_prefix(s1: Seq<char>, s2: Seq<char>, n: int)
    requires
        0 <= n <= s1.len(),
        n <= s2.len(),
        forall|k: int| 0 <= k < n ==> s1[k] == s2[k],
    ensures
        digits_value(s1, n) == digits_value(s2, n),
    decreases n,
{
    if n > 0 {
        lemma_digits_value_prefix(s1, s2, n - 1);
    }
}

/// Reading back the decimal text of `n` gives `n`.
proof fn lemma_digits_of_dec_text(n: int)
    requires
        n >= 0,
    ensures
        dec_text(n).len() >= 1,
        digits_value(dec_text(n), dec_text(n).len() as int) == Some(n),
    decreases n,
{
    if n < 10 {
        assert(dec_digit_value(dec_digit(n)) == Some(n));
        assert(digits_value(dec_text(n), 0) == Some(0int));
        assert(dec_text(n)[0] == dec_digit(n));
        assert(digits_value(dec_text(n), 1) == Some(n));
    } else {
        lemma_digits_of_dec_text(n / 10);
        let prefix = dec_text(n / 10);
        let s = dec_text(n);
        assert(s == prefix + seq![dec_digit(n % 10)]);
        lemma_digits_value_prefix(s, prefix, prefix.len() as int);
        assert(dec_digit_value(s[s.len() - 1]) == Some(n % 10));
        assert((n / 10) * 10 + n % 10 == n) by (nonlinear_arith)
            requires
                n >= 0,
        ;
    }
}

/// The decimal text of a positive number does not start with `0`.
proof fn lemma_dec_text_leading(n: int)
    requires
        n >= 1,
    ensures
        dec_text(n).len() >= 1,
        dec_text(n)[0] != '0',
    decreases n,
{
    if n >= 10 {
        lemma_dec_text_leading(n / 10);
        assert(dec_text(n)[0] == dec_text(n / 10)[0]);
    }
}

/// Canonical decimal text reads back to the number it was rendered from.
pub proof fn lemma_dec_value_of_dec_text(n: int)
    requires
        n >= 0,
    ensures
        dec_value(dec_text(n)) == Some(n),
{
    lemma_digits_of_dec_text(n);
    let s = dec_text(n);
    if s.len() > 1 {
        if n < 10 {
            assert(s.len() == 1);
        } else {
            lemma_dec_text_leading(n);
        }
    }
}

/// Read a whole string as a canonical decimal number, if it is one whose
/// value fits in a `u64`.
pub fn parse_dec_u64(s: &str) -> (r: Option<u64>)
    ensures
        ({
            let dv = dec_value(s@);
            match r {
                Some(v) => dv == Some(v as int),
                None => !(dv matches Some(v) && v <= u64::MAX),
            }
        }),
{
    let n = s.unicode_len();
    if n == 0 {
        return None;
    }
    if n > 1 && s.get_char(0) == '0' {
        return None;
    }
    let mut acc: u64 = 0;
    let mut i: usize = 0;
    while i < n
        invariant
            n == s@.len(),
            n >= 1,
            0 <= i <= n,
            digits_value(s@, i as int) == Some(acc as int),
        decreases n - i,
    {
        let c = s.get_char(i);
        let d: u64 = if c == '0' {
            0
        } else if c == '1' {
            1
        } else if c == '2' {
            2
        } else if c == '3' {
            3
        } else if c == '4' {
            4
        } else if c == '5' {
            5
        } else if c == '6' {
            6
        } else if c == '7' {
            7
        } else if c == '8' {
            8
        } else if c == '9' {
            9
        } else {
            proof {
                lemma_digits_value_bad(s@, i as int, n as int);
            }
            return None;
        };
        proof {
            assert(dec_digit_value(s@[i as int]) == Some(d as int));
        }
        if acc > 1844674407370955161u64 || (acc == 1844674407370955161u64 && d > 5) {
            proof {
                assert(digits_value(s@, i + 1 as int) == Some((acc as int) * 10 + d as int));
                assert((acc as int) * 10 + d as int > u64::MAX) by (nonlinear_arith)
                    requires
                        acc as int > 1844674407370955161 || (acc as int == 1844674407370955161
                            && d as int > 5),
                        0 <= d as int <= 9,
                        acc as int >= 0,
                ;
                lemma_digits_value_monotone(s@, i + 1 as int, n as int);
            }
            return None;
        }
        proof {
            assert((acc as int) * 10 + d as int <= u64::MAX) by (nonlinear_arith)
                requires
                    acc as int <= 1844674407370955161,
                    acc as int == 1844674407370955161 ==> d as int <= 5,
                    0 <= d as int <= 9,
                    acc as int >= 0,
            ;
        }
        acc = acc * 10 + d;
        i = i + 1;
    }
    Some(acc)
}

} // verus!
