//! The JSON document model the wire codec works on: a value tree, a
//! canonical printer, and a parser. Numbers that are plain unsigned
//! integers are kept as such; any other numeric form is carried through
//! as raw text.

use vstd::prelude::*;
use crate::codec::num::{
    all_digits,
    digit_val,
    is_digit,
    parse_digits,
    spec_dec,
    spec_digit_char,
    spec_digits_val,
    u64_to_decimal,
};
use crate::strutil::{chars_to_string, str_to_chars};

verus! {

broadcast use vstd::seq::group_seq_axioms, vstd::std_specs::vec::group_vec_axioms;

/// The spec-level value of a JSON document.
#[verifier::ext_equal]
pub enum JsonV {
    Null,
    Bool(bool),
    Num(u64),
    NumRaw(Seq<char>),
    Str(Seq<char>),
    Arr(Seq<JsonV>),
    Obj(Seq<(Seq<char>, JsonV)>),
}

/// A JSON document. Object members keep the order in which they were
/// parsed or built; duplicate keys are carried through untouched.
#[derive(Debug)]
pub enum Json {
    Null,
    Bool(bool),
    Num(u64),
    NumRaw(String),
    Str(String),
    Arr(Vec<Json>),
    Obj(Vec<(String, Json)>),
}

/// The spec-level value of a JSON tree.
pub open spec fn jview(j: Json) -> JsonV
    decreases j, 1int,
        via jview_dec
{
    match j {
        Json::Null => JsonV::Null,
        Json::Bool(b) => JsonV::Bool(b),
        Json::Num(n) => JsonV::Num(n),
        Json::NumRaw(s) => JsonV::NumRaw(s@),
        Json::Str(s) => JsonV::Str(s@),
        Json::Arr(v) => JsonV::Arr(jview_seq(v@)),
        Json::Obj(v) => JsonV::Obj(jview_members(v@)),
    }
}

#[via_fn]
proof fn jview_dec(j: Json) {
    match j {
        Json::Arr(v) => {
            vstd::std_specs::vec::axiom_vec_decreases_to_view(v);
        },
        Json::Obj(v) => {
            vstd::std_specs::vec::axiom_vec_decreases_to_view(v);
        },
        _ => {},
    }
}

/// The spec-level values of the elements of an array.
pub open spec fn jview_seq(s: Seq<Json>) -> Seq<JsonV>
    decreases s, 0int,
{
    if s.len() == 0 {
        Seq::empty()
    } else {
        jview_seq(s.drop_last()).push(jview(s.last()))
    }
}

/// The spec-level values of the members of an object.
pub open spec fn jview_members(s: Seq<(String, Json)>) -> Seq<(Seq<char>, JsonV)>
    decreases s, 0int,
{
    if s.len() == 0 {
        Seq::empty()
    } else {
        jview_members(s.drop_last()).push((s.last().0@, jview(s.last().1)))
    }
}

/// Pointwise reading of an array's view.
pub proof fn lemma_jview_seq_index(s: Seq<Json>)
    ensures
        jview_seq(s).len() == s.len(),
        forall|i: int| 0 <= i < s.len() ==> jview_seq(s)[i] == jview(s[i]),
    decreases s.len(),
{
    if s.len() > 0 {
        lemma_jview_seq_index(s.drop_last());
    }
}

/// Pointwise reading of an object's view.
pub proof fn lemma_jview_members_index(s: Seq<(String, Json)>)
    ensures
        jview_members(s).len() == s.len(),
        forall|i: int|
            0 <= i < s.len() ==> jview_members(s)[i] == (s[i].0@, jview(s[i].1)),
    decreases s.len(),
{
    if s.len() > 0 {
        lemma_jview_members_index(s.drop_last());
    }
}

impl View for Json {
    type V = JsonV;

    open spec fn view(&self) -> JsonV {
        jview(*self)
    }
}

impl Clone for Json {
    #[verifier::loop_isolation(false)]
    fn clone(&self) -> (r: Self)
        ensures
            r@ == self@,
        decreases *self,
    {
        match self {
            Json::Null => Json::Null,
            Json::Bool(b) => Json::Bool(*b),
            Json::Num(n) => Json::Num(*n),
            Json::NumRaw(s) => Json::NumRaw(s.clone()),
            Json::Str(s) => Json::Str(s.clone()),
            Json::Arr(v) => {
                let mut out: Vec<Json> = Vec::new();
                let mut i: usize = 0;
                while i < v.len()
                    invariant
                        i <= v@.len(),
                        out@.len() == i,
                        forall|k: int| 0 <= k < i ==> jview(#[trigger] out@[k]) == jview(
                            v@[k],
                        ),
                    decreases v@.len() - i,
                {
                    proof {
                        assert(decreases_to!(*self => *v));
                        assert(decreases_to!(*v => v@[i as int]));
                    }
                    out.push(v[i].clone());
                    i = i + 1;
                }
                proof {
                    lemma_jview_seq_index(out@);
                    lemma_jview_seq_index(v@);
                    assert(jview_seq(out@) =~= jview_seq(v@));
                }
                Json::Arr(out)
            },
            Json::Obj(v) => {
                let mut out: Vec<(String, Json)> = Vec::new();
                let mut i: usize = 0;
                while i < v.len()
                    invariant
                        i <= v@.len(),
                        out@.len() == i,
                        forall|k: int|
                            0 <= k < i ==> (#[trigger] out@[k]).0@ == v@[k].0@ && jview(
                                out@[k].1,
                            ) == jview(v@[k].1),
                    decreases v@.len() - i,
                {
                    proof {
                        assert(decreases_to!(*self => *v));
                        assert(decreases_to!(*v => v@[i as int]));
                        assert(decreases_to!(v@[i as int] => v@[i as int].1));
                    }
                    let key = v[i].0.clone();
                    let val = v[i].1.clone();
                    out.push((key, val));
                    i = i + 1;
                }
                proof {
                    lemma_jview_members_index(out@);
                    lemma_jview_members_index(v@);
                    assert(jview_members(out@) =~= jview_members(v@));
                }
                Json::Obj(out)
            },
        }
    }
}

/// The lower-case hexadecimal digit for a value below sixteen.
pub open spec fn spec_hex_char(d: int) -> char {
    if d < 10 {
        spec_digit_char(d)
    } else {
        ((97 + (d - 10)) as u8) as char
    }
}

/// How one character is written inside a JSON string: quotes and
/// backslashes take a two-character escape, control characters take the
/// six-character unicode escape, everything else stands for itself.
pub open spec fn esc_char(c: char) -> Seq<char> {
    if c == '"' {
        seq!['\\', '"']
    } else if c == '\\' {
        seq!['\\', '\\']
    } else if (c as u32) < 32 {
        seq!['\\', 'u', '0', '0', spec_hex_char((c as u32) as int / 16), spec_hex_char(
            (c as u32) as int % 16,
        )]
    } else {
        seq![c]
    }
}

/// The escaped body of a JSON string.
pub open spec fn spec_escape(s: Seq<char>) -> Seq<char>
    decreases s.len(),
{
    if s.len() == 0 {
        Seq::empty()
    } else {
        spec_escape(s.drop_last()) + esc_char(s.last())
    }
}

/// A complete JSON string token: quote, escaped body, quote.
pub open spec fn spec_print_string(s: Seq<char>) -> Seq<char> {
    seq!['"'] + spec_escape(s) + seq!['"']
}

/// The canonical rendering of a JSON value: no whitespace, members and
/// elements in order, integers in decimal.
pub open spec fn spec_print(j: JsonV) -> Seq<char>
    decreases j, 1int,
{
    match j {
        JsonV::Null => seq!['n', 'u', 'l', 'l'],
        JsonV::Bool(b) => if b {
            seq!['t', 'r', 'u', 'e']
        } else {
            seq!['f', 'a', 'l', 's', 'e']
        },
        JsonV::Num(n) => spec_dec(n),
        JsonV::NumRaw(s) => s,
        JsonV::Str(s) => spec_print_string(s),
        JsonV::Arr(elems) => seq!['['] + spec_print_elems(elems) + seq![']'],
        JsonV::Obj(members) => seq!['{'] + spec_print_members(members) + seq!['}'],
    }
}

/// The comma-separated renderings of the elements of an array.
pub open spec fn spec_print_elems(elems: Seq<JsonV>) -> Seq<char>
    decreases elems, 0int,
{
    if elems.len() == 0 {
        Seq::empty()
    } else if elems.len() == 1 {
        spec_print(elems[0])
    } else {
        spec_print_elems(elems.drop_last()) + seq![','] + spec_print(elems.last())
    }
}

/// The comma-separated renderings of the members of an object.
pub open spec fn spec_print_members(members: Seq<(Seq<char>, JsonV)>) -> Seq<char>
    decreases members, 0int,
{
    if members.len() == 0 {
        Seq::empty()
    } else {
        let head = spec_print_string(members.last().0) + seq![':'] + spec_print(
            members.last().1,
        );
        if members.len() == 1 {
            head
        } else {
            spec_print_members(members.drop_last()) + seq![','] + head
        }
    }
}

/// The lower-case hexadecimal digit for a value below sixteen.
pub fn hex_char(d: u64) -> (r: char)
    requires
        d < 16,
    ensures
        r == spec_hex_char(d as int),
{
    if d < 10 {
        (48u8 + d as u8) as char
    } else {
        (97u8 + (d - 10) as u8) as char
    }
}

/// Writes the escaped body of a JSON string.
pub fn escape_into(s: &Vec<char>, out: &mut Vec<char>)
    ensures
        final(out)@ == old(out)@ + spec_escape(s@),
{
    let mut i: usize = 0;
    proof {
        assert(s@.take(0) =~= Seq::<char>::empty());
        assert(old(out)@ + spec_escape(s@.take(0)) =~= old(out)@);
    }
    while i < s.len()
        invariant
            i <= s@.len(),
            out@ == old(out)@ + spec_escape(s@.take(i as int)),
        decreases s@.len() - i,
    {
        let c = s[i];
        if c == '"' {
            out.push('\\');
            out.push('"');
            proof {
                assert(esc_char(c) =~= seq!['\\', '"']);
            }
        } else if c == '\\' {
            out.push('\\');
            out.push('\\');
            proof {
                assert(esc_char(c) =~= seq!['\\', '\\']);
            }
        } else if (c as u32) < 32 {
            out.push('\\');
            out.push('u');
            out.push('0');
            out.push('0');
            let v = c as u32 as u64;
            out.push(hex_char(v / 16));
            out.push(hex_char(v % 16));
            proof {
                assert(esc_char(c) =~= seq!['\\', 'u', '0', '0', spec_hex_char(
                    (c as u32) as int / 16,
                ), spec_hex_char((c as u32) as int % 16)]);
            }
        } else {
            out.push(c);
            proof {
                assert(esc_char(c) =~= seq![c]);
            }
        }
        proof {
            assert(out@ =~= old(out)@ + spec_escape(s@.take(i as int)) + esc_char(s@[i as int]));
            assert(s@.take(i + 1).drop_last() =~= s@.take(i as int));
            assert(s@.take(i + 1).last() == s@[i as int]);
            assert(spec_escape(s@.take(i + 1)) == spec_escape(s@.take(i as int)) + esc_char(
                s@[i as int],
            ));
            assert(out@ =~= old(out)@ + spec_escape(s@.take(i + 1)));
        }
        i = i + 1;
    }
    proof {
        assert(s@.take(s@.len() as int) =~= s@);
    }
}

/// Writes the canonical rendering of a JSON value.
#[verifier::loop_isolation(false)]
#[verifier::rlimit(60)]
pub fn print_into(j: &Json, out: &mut Vec<char>)
    ensures
        final(out)@ == old(out)@ + spec_print(j@),
    decreases *j,
{
    match j {
        Json::Null => {
            out.push('n');
            out.push('u');
            out.push('l');
            out.push('l');
            proof {
                assert(out@ =~= old(out)@ + spec_print(j@));
            }
        },
        Json::Bool(b) => {
            if *b {
                out.push('t');
                out.push('r');
                out.push('u');
                out.push('e');
            } else {
                out.push('f');
                out.push('a');
                out.push('l');
                out.push('s');
                out.push('e');
            }
            proof {
                assert(out@ =~= old(out)@ + spec_print(j@));
            }
        },
        Json::Num(n) => {
            let mut d = u64_to_decimal(*n);
            out.append(&mut d);
        },
        Json::NumRaw(s) => {
            let mut cs = str_to_chars(s.as_str());
            out.append(&mut cs);
        },
        Json::Str(s) => {
            let cs = str_to_chars(s.as_str());
            out.push('"');
            escape_into(&cs, out);
            out.push('"');
            proof {
                assert(out@ =~= old(out)@ + spec_print_string(s@));
            }
        },
        Json::Arr(v) => {
            out.push('[');
            let ghost views = jview_seq(v@);
            let mut i: usize = 0;
            proof {
                lemma_jview_seq_index(v@);
                assert(views.take(0) =~= Seq::<JsonV>::empty());
            }
            while i < v.len()
                invariant
                    i <= v@.len(),
                    views == jview_seq(v@),
                    views.len() == v@.len(),
                    forall|k: int| 0 <= k < v@.len() ==> views[k] == jview(v@[k]),
                    out@ == old(out)@ + seq!['['] + spec_print_elems(views.take(i as int)),
                decreases v@.len() - i,
            {
                if i > 0 {
                    out.push(',');
                }
                proof {
                    assert(decreases_to!(*j => *v));
                    assert(decreases_to!(*v => v@[i as int]));
                }
                print_into(&v[i], out);
                proof {
                    assert(views.take(i + 1).drop_last() =~= views.take(i as int));
                    assert(views.take(i + 1).last() == views[i as int]);
                    if i == 0 {
                        assert(views.take(1) =~= seq![views[0]]);
                        assert(spec_print_elems(views.take(1)) == spec_print(views[0]));
                    }
                    assert(out@ =~= old(out)@ + seq!['['] + spec_print_elems(
                        views.take(i + 1),
                    ));
                }
                i = i + 1;
            }
            out.push(']');
            proof {
                assert(views.take(v@.len() as int) =~= views);
                assert(out@ =~= old(out)@ + seq!['['] + spec_print_elems(views) + seq![']']);
                assert(j@ == JsonV::Arr(views));
                assert(spec_print(j@) == seq!['['] + spec_print_elems(views) + seq![']']);
                assert(out@ =~= old(out)@ + spec_print(j@));
            }
        },
        Json::Obj(v) => {
            out.push('{');
            let ghost views = jview_members(v@);
            let mut i: usize = 0;
            proof {
                lemma_jview_members_index(v@);
                assert(views.take(0) =~= Seq::<(Seq<char>, JsonV)>::empty());
            }
            while i < v.len()
                invariant
                    i <= v@.len(),
                    views == jview_members(v@),
                    views.len() == v@.len(),
                    forall|k: int|
                        0 <= k < v@.len() ==> views[k] == (v@[k].0@, jview(v@[k].1)),
                    out@ == old(out)@ + seq!['{'] + spec_print_members(views.take(i as int)),
                decreases v@.len() - i,
            {
                if i > 0 {
                    out.push(',');
                }
                let kc = str_to_chars(v[i].0.as_str());
                out.push('"');
                escape_into(&kc, out);
                out.push('"');
                out.push(':');
                proof {
                    assert(decreases_to!(*j => *v));
                    assert(decreases_to!(*v => v@[i as int]));
                    assert(decreases_to!(v@[i as int] => v@[i as int].1));
                }
                print_into(&v[i].1, out);
                proof {
                    assert(views.take(i + 1).drop_last() =~= views.take(i as int));
                    assert(views.take(i + 1).last() == views[i as int]);
                    assert(out@ =~= old(out)@ + seq!['{'] + spec_print_members(
                        views.take(i + 1),
                    ));
                }
                i = i + 1;
            }
            out.push('}');
            proof {
                assert(views.take(v@.len() as int) =~= views);
                assert(out@ =~= old(out)@ + seq!['{'] + spec_print_members(views) + seq!['}']);
                assert(j@ == JsonV::Obj(views));
                assert(spec_print(j@) == seq!['{'] + spec_print_members(views) + seq!['}']);
                assert(out@ =~= old(out)@ + spec_print(j@));
            }
        },
    }
}

/// Whether a character is JSON whitespace.
pub open spec fn is_ws(c: char) -> bool {
    c == ' ' || c == '\t' || c == '\n' || c == '\r'
}

/// The first position at or after `pos` that does not hold whitespace.
pub open spec fn spec_skip_ws(s: Seq<char>, pos: int) -> int
    decreases s.len() - pos,
        when 0 <= pos <= s.len()
{
    if pos < s.len() && is_ws(s[pos]) {
        spec_skip_ws(s, pos + 1)
    } else {
        pos
    }
}

/// The first position at or after `pos` that does not hold a decimal
/// digit.
pub open spec fn spec_scan_digits(s: Seq<char>, pos: int) -> int
    decreases s.len() - pos,
        when 0 <= pos <= s.len()
{
    if pos < s.len() && is_digit(s[pos]) {
        spec_scan_digits(s, pos + 1)
    } else {
        pos
    }
}

/// Skipping whitespace stays inside the text and moves only forward.
pub proof fn lemma_skip_ws_bounds(s: Seq<char>, pos: int)
    requires
        0 <= pos <= s.len(),
    ensures
        pos <= spec_skip_ws(s, pos) <= s.len(),
    decreases s.len() - pos,
{
    if pos < s.len() && is_ws(s[pos]) {
        lemma_skip_ws_bounds(s, pos + 1)
    }
}

/// Scanning digits stays inside the text, moves only forward, and covers
/// digits exactly.
pub proof fn lemma_scan_digits_bounds(s: Seq<char>, pos: int)
    requires
        0 <= pos <= s.len(),
    ensures
        pos <= spec_scan_digits(s, pos) <= s.len(),
        forall|k: int| pos <= k < spec_scan_digits(s, pos) ==> is_digit(#[trigger] s[k]),
        spec_scan_digits(s, pos) < s.len() ==> !is_digit(s[spec_scan_digits(s, pos)]),
    decreases s.len() - pos,
{
    if pos < s.len() && is_digit(s[pos]) {
        lemma_scan_digits_bounds(s, pos + 1)
    }
}

/// Whether a character is a hexadecimal digit.
pub open spec fn is_hex(c: char) -> bool {
    is_digit(c) || ('a' <= c && c <= 'f') || ('A' <= c && c <= 'F')
}

/// The numeric value of a hexadecimal digit character.
pub open spec fn hex_val(c: char) -> int {
    if is_digit(c) {
        digit_val(c)
    } else if 'a' <= c && c <= 'f' {
        c as int - 'a' as int + 10
    } else {
        c as int - 'A' as int + 10
    }
}

/// Whether four hexadecimal digits stand at `pos`.
pub open spec fn hex4_ok(s: Seq<char>, pos: int) -> bool {
    pos + 4 <= s.len() && is_hex(s[pos]) && is_hex(s[pos + 1]) && is_hex(s[pos + 2]) && is_hex(
        s[pos + 3],
    )
}

/// The value of the four hexadecimal digits at `pos`.
pub open spec fn hex4_val(s: Seq<char>, pos: int) -> int {
    hex_val(s[pos]) * 4096 + hex_val(s[pos + 1]) * 256 + hex_val(s[pos + 2]) * 16 + hex_val(
        s[pos + 3],
    )
}

/// Parses the body of a JSON string starting just after the opening
/// quote; returns the decoded content and the position just after the
/// closing quote. Handles the two-character escapes, unicode escapes
/// with surrogate pairs, and plain characters; rejects unescaped control
/// characters and unterminated strings.
pub open spec fn spec_parse_string_body(s: Seq<char>, pos: int) -> Option<(Seq<char>, int)>
    decreases s.len() - pos,
        when 0 <= pos <= s.len()
{
    if pos >= s.len() {
        None
    } else if s[pos] == '"' {
        Some((Seq::empty(), pos + 1))
    } else if s[pos] == '\\' {
        if pos + 2 > s.len() {
            None
        } else {
            let c2 = s[pos + 1];
            if c2 == '"' || c2 == '\\' || c2 == '/' {
                spec_string_cons(c2, spec_parse_string_body(s, pos + 2))
            } else if c2 == 'b' {
                spec_string_cons('\u{0008}', spec_parse_string_body(s, pos + 2))
            } else if c2 == 'f' {
                spec_string_cons('\u{000C}', spec_parse_string_body(s, pos + 2))
            } else if c2 == 'n' {
                spec_string_cons('\n', spec_parse_string_body(s, pos + 2))
            } else if c2 == 'r' {
                spec_string_cons('\r', spec_parse_string_body(s, pos + 2))
            } else if c2 == 't' {
                spec_string_cons('\t', spec_parse_string_body(s, pos + 2))
            } else if c2 == 'u' {
                if !hex4_ok(s, pos + 2) {
                    None
                } else {
                    let h = hex4_val(s, pos + 2);
                    if h < 0xD800 || h >= 0xE000 {
                        spec_string_cons((h as u32) as char, spec_parse_string_body(s, pos + 6))
                    } else if h < 0xDC00 {
                        if pos + 12 <= s.len() && s[pos + 6] == '\\' && s[pos + 7] == 'u'
                            && hex4_ok(s, pos + 8) {
                            let l = hex4_val(s, pos + 8);
                            if 0xDC00 <= l < 0xE000 {
                                spec_string_cons(
                                    ((0x10000 + (h - 0xD800) * 0x400 + (l - 0xDC00)) as u32)
                                        as char,
                                    spec_parse_string_body(s, pos + 12),
                                )
                            } else {
                                None
                            }
                        } else {
                            None
                        }
                    } else {
                        None
                    }
                }
            } else {
                None
            }
        }
    } else if (s[pos] as u32) >= 32 {
        spec_string_cons(s[pos], spec_parse_string_body(s, pos + 1))
    } else {
        None
    }
}

/// Prepends a decoded character to the rest of a string body.
pub open spec fn spec_string_cons(c: char, rest: Option<(Seq<char>, int)>) -> Option<
    (Seq<char>, int),
> {
    match rest {
        Some((t, e)) => Some((seq![c] + t, e)),
        None => None,
    }
}

/// Parses the exponent part of a JSON number; `pos` is at the `e` or
/// `E`. Returns the position after the exponent digits.
pub open spec fn spec_parse_exp(s: Seq<char>, pos: int) -> Option<int> {
    let sp = if pos + 1 < s.len() && (s[pos + 1] == '+' || s[pos + 1] == '-') {
        pos + 2
    } else {
        pos + 1
    };
    if sp > s.len() {
        None
    } else {
        let ee = spec_scan_digits(s, sp);
        if ee <= sp || ee > s.len() {
            None
        } else {
            Some(ee)
        }
    }
}

/// Parses the fraction part of a JSON number; `pos` is at the dot.
/// Returns the position after the fraction digits.
pub open spec fn spec_parse_frac(s: Seq<char>, pos: int) -> Option<int> {
    if pos + 1 > s.len() {
        None
    } else {
        let fe = spec_scan_digits(s, pos + 1);
        if fe <= pos + 1 || fe > s.len() {
            None
        } else {
            Some(fe)
        }
    }
}

/// Parses a JSON number token at `pos`. A plain unsigned integer that
/// fits in 64 bits becomes `Num`; any other valid numeric form is kept
/// as raw text.
pub open spec fn spec_parse_number(s: Seq<char>, pos: int) -> Option<(JsonV, int)> {
    if pos < 0 || pos >= s.len() {
        None
    } else {
        let neg = s[pos] == '-';
        let ip = if neg {
            pos + 1
        } else {
            pos
        };
        if ip > s.len() {
            None
        } else {
            let ie = spec_scan_digits(s, ip);
            if ie <= ip || ie > s.len() {
                None
            } else {
                let fr = if ie < s.len() && s[ie] == '.' {
                    spec_parse_frac(s, ie)
                } else {
                    Some(ie)
                };
                match fr {
                    None => None,
                    Some(fe) => {
                        let ex = if fe < s.len() && (s[fe] == 'e' || s[fe] == 'E') {
                            spec_parse_exp(s, fe)
                        } else {
                            Some(fe)
                        };
                        match ex {
                            None => None,
                            Some(ne) => {
                                let raw = s.subrange(pos, ne);
                                if !neg && ne == ie {
                                    if spec_digits_val(raw) <= u64::MAX {
                                        Some(
                                            (JsonV::Num(spec_digits_val(raw) as u64), ne),
                                        )
                                    } else {
                                        Some((JsonV::NumRaw(raw), ne))
                                    }
                                } else {
                                    Some((JsonV::NumRaw(raw), ne))
                                }
                            },
                        }
                    },
                }
            }
        }
    }
}

/// Parses a JSON value at `pos`, after skipping leading whitespace.
pub open spec fn spec_parse_value(s: Seq<char>, pos: int) -> Option<(JsonV, int)>
    decreases s.len() - pos, 0int,
        when 0 <= pos <= s.len()
{
    if pos >= s.len() {
        None
    } else if is_ws(s[pos]) {
        spec_parse_value(s, pos + 1)
    } else if s[pos] == 'n' {
        if pos + 4 <= s.len() && s[pos + 1] == 'u' && s[pos + 2] == 'l' && s[pos + 3] == 'l' {
            Some((JsonV::Null, pos + 4))
        } else {
            None
        }
    } else if s[pos] == 't' {
        if pos + 4 <= s.len() && s[pos + 1] == 'r' && s[pos + 2] == 'u' && s[pos + 3] == 'e' {
            Some((JsonV::Bool(true), pos + 4))
        } else {
            None
        }
    } else if s[pos] == 'f' {
        if pos + 5 <= s.len() && s[pos + 1] == 'a' && s[pos + 2] == 'l' && s[pos + 3] == 's'
            && s[pos + 4] == 'e' {
            Some((JsonV::Bool(false), pos + 5))
        } else {
            None
        }
    } else if s[pos] == '"' {
        match spec_parse_string_body(s, pos + 1) {
            Some((content, e)) => Some((JsonV::Str(content), e)),
            None => None,
        }
    } else if s[pos] == '{' {
        let p = spec_skip_ws(s, pos + 1);
        if p < pos + 1 || p > s.len() {
            None
        } else if p < s.len() && s[p] == '}' {
            Some((JsonV::Obj(Seq::empty()), p + 1))
        } else if p < s.len() {
            match spec_parse_members(s, p) {
                Some((members, e)) => Some((JsonV::Obj(members), e)),
                None => None,
            }
        } else {
            None
        }
    } else if s[pos] == '[' {
        let p = spec_skip_ws(s, pos + 1);
        if p < pos + 1 || p > s.len() {
            None
        } else if p < s.len() && s[p] == ']' {
            Some((JsonV::Arr(Seq::empty()), p + 1))
        } else if p < s.len() {
            match spec_parse_elems(s, p) {
                Some((elems, e)) => Some((JsonV::Arr(elems), e)),
                None => None,
            }
        } else {
            None
        }
    } else if s[pos] == '-' || is_digit(s[pos]) {
        spec_parse_number(s, pos)
    } else {
        None
    }
}

/// Parses the elements of a non-empty array, starting at the first
/// element; consumes through the closing bracket.
pub open spec fn spec_parse_elems(s: Seq<char>, pos: int) -> Option<(Seq<JsonV>, int)>
    decreases s.len() - pos, 1int,
        when 0 <= pos <= s.len()
{
    match spec_parse_value(s, pos) {
        None => None,
        Some((val, e)) => {
            if e <= pos || e > s.len() {
                None
            } else {
                let q = spec_skip_ws(s, e);
                if q < e || q >= s.len() {
                    None
                } else if s[q] == ',' {
                    match spec_parse_elems(s, q + 1) {
                        Some((rest, e2)) => Some((seq![val] + rest, e2)),
                        None => None,
                    }
                } else if s[q] == ']' {
                    Some((seq![val], q + 1))
                } else {
                    None
                }
            }
        },
    }
}

/// Parses the members of a non-empty object, starting at the first key;
/// consumes through the closing brace.
pub open spec fn spec_parse_members(s: Seq<char>, pos: int) -> Option<
    (Seq<(Seq<char>, JsonV)>, int),
>
    decreases s.len() - pos, 1int,
        when 0 <= pos <= s.len()
{
    if pos >= s.len() || s[pos] != '"' {
        None
    } else {
        match spec_parse_string_body(s, pos + 1) {
            None => None,
            Some((key, p2)) => {
                if p2 <= pos + 1 || p2 > s.len() {
                    None
                } else {
                    let q = spec_skip_ws(s, p2);
                    if q < p2 || q >= s.len() || s[q] != ':' {
                        None
                    } else {
                        match spec_parse_value(s, q + 1) {
                            None => None,
                            Some((val, e)) => {
                                if e <= q || e > s.len() {
                                    None
                                } else {
                                    let q2 = spec_skip_ws(s, e);
                                    if q2 < e || q2 >= s.len() {
                                        None
                                    } else if s[q2] == ',' {
                                        let q3 = spec_skip_ws(s, q2 + 1);
                                        if q3 < q2 + 1 || q3 > s.len() {
                                            None
                                        } else {
                                            match spec_parse_members(s, q3) {
                                                Some((rest, e2)) => Some(
                                                    (seq![(key, val)] + rest, e2),
                                                ),
                                                None => None,
                                            }
                                        }
                                    } else if s[q2] == '}' {
                                        Some((seq![(key, val)], q2 + 1))
                                    } else {
                                        None
                                    }
                                }
                            },
                        }
                    }
                }
            },
        }
    }
}

/// Parses a complete JSON document: one value with nothing but
/// whitespace after it.
pub open spec fn spec_parse_text(s: Seq<char>) -> Option<JsonV> {
    match spec_parse_value(s, 0) {
        None => None,
        Some((j, e)) => {
            if 0 <= e <= s.len() && spec_skip_ws(s, e) == s.len() {
                Some(j)
            } else {
                None
            }
        },
    }
}

/// The canonical text of a JSON value.
pub fn to_text(j: &Json) -> (r: String)
    ensures
        r@ == spec_print(j@),
{
    let mut out: Vec<char> = Vec::new();
    print_into(j, &mut out);
    chars_to_string(out)
}

/// Skips whitespace from `pos`.
pub fn skip_ws(v: &Vec<char>, pos: usize) -> (r: usize)
    requires
        pos <= v@.len(),
    ensures
        r == spec_skip_ws(v@, pos as int),
        pos <= r <= v@.len(),
{
    let mut i: usize = pos;
    while i < v.len() && (v[i] == ' ' || v[i] == '\t' || v[i] == '\n' || v[i] == '\r')
        invariant
            pos <= i <= v@.len(),
            spec_skip_ws(v@, pos as int) == spec_skip_ws(v@, i as int),
        decreases v@.len() - i,
    {
        i = i + 1;
    }
    i
}

/// Scans decimal digits from `pos`.
pub fn scan_digits(v: &Vec<char>, pos: usize) -> (r: usize)
    requires
        pos <= v@.len(),
    ensures
        r == spec_scan_digits(v@, pos as int),
        pos <= r <= v@.len(),
{
    let mut i: usize = pos;
    while i < v.len() && v[i] >= '0' && v[i] <= '9'
        invariant
            pos <= i <= v@.len(),
            spec_scan_digits(v@, pos as int) == spec_scan_digits(v@, i as int),
        decreases v@.len() - i,
    {
        i = i + 1;
    }
    i
}

/// The value of a hexadecimal digit character.
pub fn hex_digit_val(c: char) -> (r: Option<u32>)
    ensures
        match r {
            Some(d) => is_hex(c) && d == hex_val(c) && d < 16,
            None => !is_hex(c),
        },
{
    if c >= '0' && c <= '9' {
        Some(c as u32 - 48)
    } else if c >= 'a' && c <= 'f' {
        Some(c as u32 - 97 + 10)
    } else if c >= 'A' && c <= 'F' {
        Some(c as u32 - 65 + 10)
    } else {
        None
    }
}

/// Reads the four hexadecimal digits at `pos`.
pub fn read_hex4(v: &Vec<char>, pos: usize) -> (r: Option<u32>)
    requires
        pos + 4 <= v@.len(),
    ensures
        match r {
            Some(h) => hex4_ok(v@, pos as int) && h == hex4_val(v@, pos as int) && h < 65536,
            None => !hex4_ok(v@, pos as int),
        },
{
    proof {
        assert(v.len() == v@.len());
    }
    let d0 = match hex_digit_val(v[pos]) {
        Some(d) => d,
        None => {
            return None;
        },
    };
    let d1 = match hex_digit_val(v[pos + 1]) {
        Some(d) => d,
        None => {
            return None;
        },
    };
    let d2 = match hex_digit_val(v[pos + 2]) {
        Some(d) => d,
        None => {
            return None;
        },
    };
    let d3 = match hex_digit_val(v[pos + 3]) {
        Some(d) => d,
        None => {
            return None;
        },
    };
    Some(d0 * 4096 + d1 * 256 + d2 * 16 + d3)
}

/// Parses the body of a JSON string starting just after the opening
/// quote.
pub fn parse_string_body(v: &Vec<char>, pos: usize) -> (r: Option<(Vec<char>, usize)>)
    requires
        pos <= v@.len(),
    ensures
        match r {
            Some((content, e)) => spec_parse_string_body(v@, pos as int) == Some(
                (content@, e as int),
            ) && pos < e <= v@.len(),
            None => spec_parse_string_body(v@, pos as int) is None,
        },
{
    let ghost s = v@;
    let mut out: Vec<char> = Vec::new();
    let mut i: usize = pos;
    while i < v.len()
        invariant
            pos <= i <= s.len(),
            s == v@,
            spec_parse_string_body(s, pos as int) == (match spec_parse_string_body(
                s,
                i as int,
            ) {
                Some((t, e)) => Some((out@ + t, e)),
                None => None::<(Seq<char>, int)>,
            }),
        decreases s.len() - i,
    {
        let c = v[i];
        if c == '"' {
            proof {
                assert(spec_parse_string_body(s, i as int) == Some(
                    (Seq::<char>::empty(), i + 1),
                ));
                assert(out@ + Seq::<char>::empty() =~= out@);
            }
            return Some((out, i + 1));
        } else if c == '\\' {
            if v.len() - i < 2 {
                return None;
            }
            let c2 = v[i + 1];
            if c2 == '"' || c2 == '\\' || c2 == '/' {
                out.push(c2);
                i = i + 2;
            } else if c2 == 'b' {
                out.push('\u{0008}');
                i = i + 2;
            } else if c2 == 'f' {
                out.push('\u{000C}');
                i = i + 2;
            } else if c2 == 'n' {
                out.push('\n');
                i = i + 2;
            } else if c2 == 'r' {
                out.push('\r');
                i = i + 2;
            } else if c2 == 't' {
                out.push('\t');
                i = i + 2;
            } else if c2 == 'u' {
                if v.len() - i < 6 {
                    proof {
                        assert(!hex4_ok(s, i + 2));
                    }
                    return None;
                }
                let h = match read_hex4(v, i + 2) {
                    Some(h) => h,
                    None => {
                        return None;
                    },
                };
                if h < 0xD800 || h >= 0xE000 {
                    out.push(crate::strutil::char_from_u32(h));
                    i = i + 6;
                } else if h < 0xDC00 {
                    if v.len() - i >= 12 && v[i + 6] == '\\' && v[i + 7] == 'u' {
                        let l = match read_hex4(v, i + 8) {
                            Some(l) => l,
                            None => {
                                return None;
                            },
                        };
                        if 0xDC00 <= l && l < 0xE000 {
                            let combined = 0x10000 + (h - 0xD800) * 0x400 + (l - 0xDC00);
                            out.push(crate::strutil::char_from_u32(combined));
                            i = i + 12;
                        } else {
                            return None;
                        }
                    } else {
                        return None;
                    }
                } else {
                    return None;
                }
            } else {
                return None;
            }
        } else if (c as u32) >= 32 {
            out.push(c);
            i = i + 1;
        } else {
            return None;
        }
        proof {
            assert(out@ =~= out@);
        }
    }
    None
}

/// Parses a JSON number token at `pos`.
pub fn parse_number(v: &Vec<char>, pos: usize) -> (r: Option<(Json, usize)>)
    requires
        pos <= v@.len(),
    ensures
        match r {
            Some((j, e)) => spec_parse_number(v@, pos as int) == Some((j@, e as int)) && pos
                < e <= v@.len(),
            None => spec_parse_number(v@, pos as int) is None,
        },
{
    let ghost s = v@;
    if pos >= v.len() {
        return None;
    }
    let neg = v[pos] == '-';
    let ip = if neg {
        pos + 1
    } else {
        pos
    };
    if ip > v.len() {
        return None;
    }
    let ie = scan_digits(v, ip);
    if ie <= ip {
        return None;
    }
    let fe = if ie < v.len() && v[ie] == '.' {
        if ie + 1 > v.len() {
            return None;
        }
        let f = scan_digits(v, ie + 1);
        if f <= ie + 1 {
            return None;
        }
        f
    } else {
        ie
    };
    let ne = if fe < v.len() && (v[fe] == 'e' || v[fe] == 'E') {
        let sp = if fe + 1 < v.len() && (v[fe + 1] == '+' || v[fe + 1] == '-') {
            fe + 2
        } else {
            fe + 1
        };
        let e2 = scan_digits(v, sp);
        if e2 <= sp {
            return None;
        }
        e2
    } else {
        fe
    };
    let mut raw: Vec<char> = Vec::new();
    let mut k: usize = pos;
    while k < ne
        invariant
            pos <= k <= ne <= s.len(),
            s == v@,
            raw@ == s.subrange(pos as int, k as int),
        decreases ne - k,
    {
        raw.push(v[k]);
        proof {
            assert(raw@ =~= s.subrange(pos as int, k + 1));
        }
        k = k + 1;
    }
    if !neg && ne == ie {
        proof {
            lemma_scan_digits_bounds(s, ip as int);
            assert(all_digits(s.subrange(pos as int, ne as int)));
        }
        match parse_digits(&raw, 0, raw.len()) {
            Some(n) => {
                proof {
                    assert(raw@.subrange(0, raw@.len() as int) =~= raw@);
                }
                Some((Json::Num(n), ne))
            },
            None => {
                proof {
                    assert(raw@.subrange(0, raw@.len() as int) =~= raw@);
                }
                Some((Json::NumRaw(chars_to_string(raw)), ne))
            },
        }
    } else {
        Some((Json::NumRaw(chars_to_string(raw)), ne))
    }
}

/// Parses a JSON value at `pos`, after skipping leading whitespace.
#[verifier::loop_isolation(false)]
#[verifier::rlimit(100)]
pub fn parse_value(v: &Vec<char>, pos: usize) -> (r: Option<(Json, usize)>)
    requires
        pos <= v@.len(),
    ensures
        match r {
            Some((j, e)) => spec_parse_value(v@, pos as int) == Some((j@, e as int)) && pos
                < e <= v@.len(),
            None => spec_parse_value(v@, pos as int) is None,
        },
    decreases v@.len() - pos, 0int,
{
    if pos >= v.len() {
        return None;
    }
    let c = v[pos];
    if c == ' ' || c == '\t' || c == '\n' || c == '\r' {
        return parse_value(v, pos + 1);
    }
    if c == 'n' {
        if v.len() - pos >= 4 && v[pos + 1] == 'u' && v[pos + 2] == 'l' && v[pos + 3] == 'l' {
            return Some((Json::Null, pos + 4));
        }
        return None;
    }
    if c == 't' {
        if v.len() - pos >= 4 && v[pos + 1] == 'r' && v[pos + 2] == 'u' && v[pos + 3] == 'e' {
            return Some((Json::Bool(true), pos + 4));
        }
        return None;
    }
    if c == 'f' {
        if v.len() - pos >= 5 && v[pos + 1] == 'a' && v[pos + 2] == 'l' && v[pos + 3] == 's'
            && v[pos + 4] == 'e' {
            return Some((Json::Bool(false), pos + 5));
        }
        return None;
    }
    if c == '"' {
        return match parse_string_body(v, pos + 1) {
            Some((content, e)) => Some((Json::Str(chars_to_string(content)), e)),
            None => None,
        };
    }
    if c == '{' {
        let p = skip_ws(v, pos + 1);
        if p < v.len() && v[p] == '}' {
            let m: Vec<(String, Json)> = Vec::new();
            proof {
                assert(jview_members(m@) =~= Seq::<(Seq<char>, JsonV)>::empty());
            }
            return Some((Json::Obj(m), p + 1));
        }
        if p < v.len() {
            return match parse_members(v, p) {
                Some((m, e)) => Some((Json::Obj(m), e)),
                None => None,
            };
        }
        return None;
    }
    if c == '[' {
        let p = skip_ws(v, pos + 1);
        if p < v.len() && v[p] == ']' {
            let m: Vec<Json> = Vec::new();
            proof {
                assert(jview_seq(m@) =~= Seq::<JsonV>::empty());
            }
            return Some((Json::Arr(m), p + 1));
        }
        if p < v.len() {
            return match parse_elems(v, p) {
                Some((m, e)) => Some((Json::Arr(m), e)),
                None => None,
            };
        }
        return None;
    }
    if c == '-' || (c >= '0' && c <= '9') {
        return match parse_number(v, pos) {
            Some((j, e)) => Some((j, e)),
            None => None,
        };
    }
    None
}

/// Parses the elements of a non-empty array, starting at the first
/// element; consumes through the closing bracket.
#[verifier::loop_isolation(false)]
#[verifier::rlimit(100)]
pub fn parse_elems(v: &Vec<char>, pos: usize) -> (r: Option<(Vec<Json>, usize)>)
    requires
        pos <= v@.len(),
    ensures
        match r {
            Some((m, e)) => spec_parse_elems(v@, pos as int) == Some(
                (jview_seq(m@), e as int),
            ) && pos < e <= v@.len(),
            None => spec_parse_elems(v@, pos as int) is None,
        },
    decreases v@.len() - pos, 1int,
{
    let (val, e) = match parse_value(v, pos) {
        Some(x) => x,
        None => {
            return None;
        },
    };
    let q = skip_ws(v, e);
    if q >= v.len() {
        return None;
    }
    let c = v[q];
    if c == ',' {
        match parse_elems(v, q + 1) {
            Some((rest, e2)) => {
                let ghost rest_snap = rest@;
                let mut m = rest;
                m.insert(0, val);
                proof {
                    assert(m@.drop_first() =~= rest_snap);
                    assert(m@[0] == val);
                    lemma_jview_seq_index(m@);
                    lemma_jview_seq_index(rest_snap);
                    assert(jview_seq(m@) =~= seq![jview(val)] + jview_seq(rest_snap));
                }
                Some((m, e2))
            },
            None => None,
        }
    } else if c == ']' {
        let mut m: Vec<Json> = Vec::new();
        m.push(val);
        proof {
            assert(m@.drop_last() =~= Seq::<Json>::empty());
            assert(jview_seq(Seq::<Json>::empty()) =~= Seq::<JsonV>::empty());
            assert(jview_seq(m@) =~= seq![jview(val)]);
        }
        Some((m, q + 1))
    } else {
        None
    }
}

/// Parses the members of a non-empty object, starting at the first key;
/// consumes through the closing brace.
#[verifier::loop_isolation(false)]
#[verifier::rlimit(100)]
pub fn parse_members(v: &Vec<char>, pos: usize) -> (r: Option<(Vec<(String, Json)>, usize)>)
    requires
        pos <= v@.len(),
    ensures
        match r {
            Some((m, e)) => spec_parse_members(v@, pos as int) == Some(
                (jview_members(m@), e as int),
            ) && pos < e <= v@.len(),
            None => spec_parse_members(v@, pos as int) is None,
        },
    decreases v@.len() - pos, 1int,
{
    if pos >= v.len() || v[pos] != '"' {
        return None;
    }
    let (key_chars, p2) = match parse_string_body(v, pos + 1) {
        Some(x) => x,
        None => {
            return None;
        },
    };
    let q = skip_ws(v, p2);
    if q >= v.len() {
        return None;
    }
    if v[q] != ':' {
        return None;
    }
    let (val, e) = match parse_value(v, q + 1) {
        Some(x) => x,
        None => {
            return None;
        },
    };
    let q2 = skip_ws(v, e);
    if q2 >= v.len() {
        return None;
    }
    let c = v[q2];
    if c == ',' {
        let q3 = skip_ws(v, q2 + 1);
        match parse_members(v, q3) {
            Some((rest, e2)) => {
                let ghost rest_snap = rest@;
                let key = chars_to_string(key_chars);
                let ghost key_view = key@;
                let ghost val_view = jview(val);
                let mut m = rest;
                m.insert(0, (key, val));
                proof {
                    assert(m@.drop_first() =~= rest_snap);
                    assert(m@[0].0@ == key_view && jview(m@[0].1) == val_view);
                    lemma_jview_members_index(m@);
                    lemma_jview_members_index(rest_snap);
                    assert(jview_members(m@) =~= seq![(key_view, val_view)] + jview_members(
                        rest_snap,
                    ));
                }
                Some((m, e2))
            },
            None => None,
        }
    } else if c == '}' {
        let key = chars_to_string(key_chars);
        let ghost key_view = key@;
        let ghost val_view = jview(val);
        let mut m: Vec<(String, Json)> = Vec::new();
        m.push((key, val));
        proof {
            assert(m@.drop_last() =~= Seq::<(String, Json)>::empty());
            assert(jview_members(Seq::<(String, Json)>::empty()) =~= Seq::<
                (Seq<char>, JsonV),
            >::empty());
            assert(m@[0].0@ == key_view && jview(m@[0].1) == val_view);
            assert(jview_members(m@) =~= seq![(key_view, val_view)]);
        }
        Some((m, q2 + 1))
    } else {
        None
    }
}

/// Parses a complete JSON document: one value with nothing but
/// whitespace after it.
pub fn parse_text(s: &str) -> (r: Option<Json>)
    ensures
        match r {
            Some(j) => spec_parse_text(s@) == Some(j@),
            None => spec_parse_text(s@) is None,
        },
{
    let v = str_to_chars(s);
    match parse_value(&v, 0) {
        Some((j, e)) => {
            let q = skip_ws(&v, e);
            if q == v.len() {
                Some(j)
            } else {
                None
            }
        },
        None => None,
    }
}

} // verus!
