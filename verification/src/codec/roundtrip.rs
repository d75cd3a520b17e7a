//! Proofs that parsing inverts printing: the canonical text of any
//! well-formed JSON value parses back to exactly that value, and from
//! that, the wire text of any control envelope decodes back to the
//! envelope.

use vstd::prelude::*;
use crate::codec::json::{
    esc_char,
    hex4_ok,
    hex4_val,
    hex_val,
    is_hex,
    is_ws,
    JsonV,
    spec_escape,
    spec_hex_char,
    spec_parse_elems,
    spec_parse_members,
    spec_parse_number,
    spec_parse_string_body,
    spec_parse_text,
    spec_parse_value,
    spec_print,
    spec_print_elems,
    spec_print_members,
    spec_print_string,
    spec_scan_digits,
    spec_skip_ws,
};
use crate::codec::num::{is_digit, lemma_dec_props, spec_dec, spec_digits_val};

verus! {

broadcast use vstd::seq::group_seq_axioms;

/// A value the canonical printer can reproduce: raw numeric text is
/// never emitted, so it is excluded.
pub open spec fn wf_json(j: JsonV) -> bool
    decreases j, 1int,
{
    match j {
        JsonV::NumRaw(_) => false,
        JsonV::Arr(es) => wf_json_seq(es),
        JsonV::Obj(ms) => wf_json_members(ms),
        _ => true,
    }
}

/// Well-formedness of an array's elements.
pub open spec fn wf_json_seq(es: Seq<JsonV>) -> bool
    decreases es, 0int,
{
    if es.len() == 0 {
        true
    } else {
        wf_json_seq(es.drop_last()) && wf_json(es.last())
    }
}

/// Well-formedness of an object's members.
pub open spec fn wf_json_members(ms: Seq<(Seq<char>, JsonV)>) -> bool
    decreases ms, 0int,
{
    if ms.len() == 0 {
        true
    } else {
        wf_json_members(ms.drop_last()) && wf_json(ms.last().1)
    }
}

/// Pointwise reading of element well-formedness.
pub proof fn lemma_wf_json_seq_index(es: Seq<JsonV>)
    requires
        wf_json_seq(es),
    ensures
        forall|i: int| 0 <= i < es.len() ==> wf_json(#[trigger] es[i]),
        es.len() > 0 ==> wf_json_seq(es.drop_first()),
    decreases es.len(),
{
    if es.len() > 0 {
        lemma_wf_json_seq_index(es.drop_last());
        assert(wf_json(es.last()));
        assert forall|i: int| 0 <= i < es.len() implies wf_json(#[trigger] es[i]) by {
            if i < es.len() - 1 {
                assert(es[i] == es.drop_last()[i]);
            } else {
                assert(es[i] == es.last());
            }
        }
        if es.len() > 1 {
            assert(wf_json_seq(es.drop_first())) by {
                lemma_wf_json_seq_build(es.drop_last().drop_first(), es.last());
                assert(es.drop_first() =~= es.drop_last().drop_first().push(es.last()));
            }
        } else {
            assert(es.drop_first() =~= Seq::<JsonV>::empty());
        }
    }
}

/// Appending a well-formed element keeps the list well-formed.
pub proof fn lemma_wf_json_seq_build(es: Seq<JsonV>, j: JsonV)
    requires
        wf_json_seq(es),
        wf_json(j),
    ensures
        wf_json_seq(es.push(j)),
{
    assert(es.push(j).drop_last() =~= es);
    assert(es.push(j).last() == j);
}

/// Pointwise reading of member well-formedness.
pub proof fn lemma_wf_json_members_index(ms: Seq<(Seq<char>, JsonV)>)
    requires
        wf_json_members(ms),
    ensures
        forall|i: int| 0 <= i < ms.len() ==> wf_json((#[trigger] ms[i]).1),
        ms.len() > 0 ==> wf_json_members(ms.drop_first()),
    decreases ms.len(),
{
    if ms.len() > 0 {
        lemma_wf_json_members_index(ms.drop_last());
        assert(wf_json(ms.last().1));
        assert forall|i: int| 0 <= i < ms.len() implies wf_json((#[trigger] ms[i]).1) by {
            if i < ms.len() - 1 {
                assert(ms[i] == ms.drop_last()[i]);
            } else {
                assert(ms[i] == ms.last());
            }
        }
        if ms.len() > 1 {
            assert(wf_json_members(ms.drop_first())) by {
                lemma_wf_json_members_build(ms.drop_last().drop_first(), ms.last());
                assert(ms.drop_first() =~= ms.drop_last().drop_first().push(ms.last()));
            }
        } else {
            assert(ms.drop_first() =~= Seq::<(Seq<char>, JsonV)>::empty());
        }
    }
}

/// Appending a well-formed member keeps the list well-formed.
pub proof fn lemma_wf_json_members_build(ms: Seq<(Seq<char>, JsonV)>, m: (Seq<char>, JsonV))
    requires
        wf_json_members(ms),
        wf_json(m.1),
    ensures
        wf_json_members(ms.push(m)),
{
    assert(ms.push(m).drop_last() =~= ms);
    assert(ms.push(m).last() == m);
}

/// The escaped body read from the left: the first character's escape,
/// then the rest.
pub proof fn lemma_escape_head(s: Seq<char>)
    requires
        s.len() > 0,
    ensures
        spec_escape(s) == esc_char(s[0]) + spec_escape(s.drop_first()),
    decreases s.len(),
{
    if s.len() == 1 {
        assert(s.drop_last() =~= Seq::<char>::empty());
        assert(s.drop_first() =~= Seq::<char>::empty());
        assert(spec_escape(s) =~= esc_char(s[0]) + spec_escape(s.drop_first()));
    } else {
        lemma_escape_head(s.drop_last());
        assert(s.drop_last()[0] == s[0]);
        assert(s.drop_last().drop_first() =~= s.drop_first().drop_last());
        assert(s.drop_first().last() == s.last());
        assert(spec_escape(s.drop_first()) == spec_escape(s.drop_first().drop_last())
            + esc_char(s.drop_first().last()));
        assert(spec_escape(s) =~= esc_char(s[0]) + spec_escape(s.drop_first()));
    }
}

/// The printed elements read from the left: the first element, then a
/// comma and the rest when more follow.
pub proof fn lemma_print_elems_head(es: Seq<JsonV>)
    requires
        es.len() > 0,
    ensures
        spec_print_elems(es) == spec_print(es[0]) + (if es.len() == 1 {
            Seq::<char>::empty()
        } else {
            seq![','] + spec_print_elems(es.drop_first())
        }),
    decreases es.len(),
{
    if es.len() == 1 {
        assert(spec_print_elems(es) =~= spec_print(es[0]) + Seq::<char>::empty());
    } else if es.len() == 2 {
        assert(es.drop_last() =~= seq![es[0]]);
        assert(es.drop_first() =~= seq![es[1]]);
        assert(spec_print_elems(es.drop_last()) == spec_print(es[0]));
        assert(spec_print_elems(es.drop_first()) == spec_print(es[1]));
        assert(es.last() == es[1]);
        assert(spec_print_elems(es) =~= spec_print(es[0]) + (seq![','] + spec_print_elems(
            es.drop_first(),
        )));
    } else {
        lemma_print_elems_head(es.drop_last());
        assert(es.drop_last()[0] == es[0]);
        assert(es.drop_last().drop_first() =~= es.drop_first().drop_last());
        assert(es.drop_first().last() == es.last());
        assert(es.drop_first().len() >= 2);
        assert(spec_print_elems(es.drop_first()) == spec_print_elems(
            es.drop_first().drop_last(),
        ) + seq![','] + spec_print(es.drop_first().last()));
        assert(spec_print_elems(es) == spec_print_elems(es.drop_last()) + seq![',']
            + spec_print(es.last()));
        assert(spec_print_elems(es.drop_last()) == spec_print(es[0]) + (seq![',']
            + spec_print_elems(es.drop_last().drop_first())));
        assert(spec_print_elems(es) =~= spec_print(es[0]) + (seq![','] + spec_print_elems(
            es.drop_first(),
        )));
    }
}

/// The printed members read from the left.
pub proof fn lemma_print_members_head(ms: Seq<(Seq<char>, JsonV)>)
    requires
        ms.len() > 0,
    ensures
        spec_print_members(ms) == (spec_print_string(ms[0].0) + seq![':'] + spec_print(
            ms[0].1,
        )) + (if ms.len() == 1 {
            Seq::<char>::empty()
        } else {
            seq![','] + spec_print_members(ms.drop_first())
        }),
    decreases ms.len(),
{
    if ms.len() == 1 {
        assert(spec_print_members(ms) =~= (spec_print_string(ms[0].0) + seq![':']
            + spec_print(ms[0].1)) + Seq::<char>::empty());
    } else if ms.len() == 2 {
        assert(ms.drop_last() =~= seq![ms[0]]);
        assert(ms.drop_first() =~= seq![ms[1]]);
        assert(spec_print_members(ms.drop_last()) == spec_print_string(ms[0].0) + seq![':']
            + spec_print(ms[0].1));
        assert(spec_print_members(ms.drop_first()) == spec_print_string(ms[1].0)
            + seq![':'] + spec_print(ms[1].1));
        assert(ms.last() == ms[1]);
        assert(spec_print_members(ms) =~= (spec_print_string(ms[0].0) + seq![':']
            + spec_print(ms[0].1)) + (seq![','] + spec_print_members(ms.drop_first())));
    } else {
        lemma_print_members_head(ms.drop_last());
        assert(ms.drop_last()[0] == ms[0]);
        assert(ms.drop_last().drop_first() =~= ms.drop_first().drop_last());
        assert(ms.drop_first().last() == ms.last());
        assert(ms.drop_first().len() >= 2);
        assert(spec_print_members(ms.drop_first()) == spec_print_members(
            ms.drop_first().drop_last(),
        ) + seq![','] + (spec_print_string(ms.drop_first().last().0) + seq![':']
            + spec_print(ms.drop_first().last().1)));
        assert(spec_print_members(ms) == spec_print_members(ms.drop_last()) + seq![',']
            + (spec_print_string(ms.last().0) + seq![':'] + spec_print(ms.last().1)));
        assert(spec_print_members(ms.drop_last()) == (spec_print_string(ms[0].0)
            + seq![':'] + spec_print(ms[0].1)) + (seq![','] + spec_print_members(
            ms.drop_last().drop_first(),
        )));
        assert(spec_print_members(ms) =~= (spec_print_string(ms[0].0) + seq![':']
            + spec_print(ms[0].1)) + (seq![','] + spec_print_members(ms.drop_first())));
    }
}

/// Skipping whitespace at a non-whitespace position stays put.
pub proof fn lemma_skip_ws_at(s: Seq<char>, pos: int)
    requires
        0 <= pos <= s.len(),
        pos == s.len() || !is_ws(s[pos]),
    ensures
        spec_skip_ws(s, pos) == pos,
{
}

/// Scanning digits over a known digit span ends exactly at its end.
pub proof fn lemma_scan_digits_span(s: Seq<char>, pos: int, k: int)
    requires
        0 <= pos,
        0 <= k,
        pos + k <= s.len(),
        forall|i: int| 0 <= i < k ==> is_digit(#[trigger] s[pos + i]),
        pos + k == s.len() || !is_digit(s[pos + k]),
    ensures
        spec_scan_digits(s, pos) == pos + k,
    decreases k,
{
    if k == 0 {
    } else {
        assert(is_digit(s[pos + 0]));
        assert(is_digit(s[pos]));
        assert forall|i: int| 0 <= i < k - 1 implies is_digit(#[trigger] s[(pos + 1) + i]) by {
            assert(is_digit(s[pos + (i + 1)]));
        }
        lemma_scan_digits_span(s, pos + 1, k - 1);
    }
}

/// The hexadecimal digit characters carry their values back.
pub proof fn lemma_hex_char_val(d: int)
    requires
        0 <= d < 16,
    ensures
        is_hex(spec_hex_char(d)),
        hex_val(spec_hex_char(d)) == d,
        !(spec_hex_char(d) == '"'),
        !(spec_hex_char(d) == '\\'),
{
}

/// A character that could extend a numeric token to the right.
pub open spec fn num_extender(c: char) -> bool {
    is_digit(c) || c == '.' || c == 'e' || c == 'E'
}

/// Parsing a string body over its escaped form yields the content back
/// and stops just past the closing quote.
pub proof fn lemma_string_body(content: Seq<char>, s: Seq<char>, pos: int)
    requires
        0 <= pos,
        pos + spec_escape(content).len() + 1 <= s.len(),
        s.subrange(pos, pos + spec_escape(content).len()) == spec_escape(content),
        s[pos + spec_escape(content).len()] == '"',
    ensures
        spec_parse_string_body(s, pos) == Some(
            (content, pos + spec_escape(content).len() + 1),
        ),
    decreases content.len(),
{
    let esc = spec_escape(content);
    if content.len() == 0 {
        assert(esc =~= Seq::<char>::empty());
        assert(s[pos] == '"');
    } else {
        let c = content[0];
        let rest = content.drop_first();
        lemma_escape_head(content);
        let e1 = esc_char(c);
        let esc_rest = spec_escape(rest);
        assert(esc == e1 + esc_rest);
        assert(forall|i: int|
            0 <= i < esc.len() ==> s[pos + i] == #[trigger] esc[i]) by {
            assert(forall|i: int|
                0 <= i < esc.len() ==> s.subrange(pos, pos + esc.len())[i]
                    == #[trigger] esc[i]);
        }
        let next = pos + e1.len();
        assert(s.subrange(next, next + esc_rest.len()) =~= esc_rest) by {
            assert(forall|i: int|
                0 <= i < esc_rest.len() ==> #[trigger] s.subrange(
                    next,
                    next + esc_rest.len(),
                )[i] == s[next + i]);
            assert(forall|i: int|
                0 <= i < esc_rest.len() ==> esc[e1.len() + i] == #[trigger] esc_rest[i]);
        }
        assert(s[next + esc_rest.len()] == '"');
        lemma_string_body(rest, s, next);
        let tail = spec_parse_string_body(s, next);
        assert(tail == Some((rest, next + esc_rest.len() + 1)));
        if c == '"' {
            assert(e1 =~= seq!['\\', '"']);
            assert(s[pos + 0] == esc[0] && s[pos + 1] == esc[1]);
            assert(esc[0] == e1[0] && esc[1] == e1[1]);
            assert(s[pos] == '\\' && s[pos + 1] == '"');
            assert(spec_parse_string_body(s, pos) == Some(
                (seq![c] + rest, next + esc_rest.len() + 1),
            ));
        } else if c == '\\' {
            assert(e1 =~= seq!['\\', '\\']);
            assert(s[pos + 0] == esc[0] && s[pos + 1] == esc[1]);
            assert(esc[0] == e1[0] && esc[1] == e1[1]);
            assert(s[pos] == '\\' && s[pos + 1] == '\\');
        } else if (c as u32) < 32 {
            let v = (c as u32) as int;
            assert(e1 =~= seq!['\\', 'u', '0', '0', spec_hex_char(v / 16), spec_hex_char(
                v % 16,
            )]);
            assert(s[pos + 0] == esc[0] && s[pos + 1] == esc[1] && s[pos + 2] == esc[2]
                && s[pos + 3] == esc[3] && s[pos + 4] == esc[4] && s[pos + 5] == esc[5]);
            assert(esc[0] == e1[0] && esc[1] == e1[1] && esc[2] == e1[2] && esc[3] == e1[3]
                && esc[4] == e1[4] && esc[5] == e1[5]);
            assert(s[pos] == '\\' && s[pos + 1] == 'u');
            assert(s[pos + 2] == '0' && s[pos + 3] == '0');
            assert(s[pos + 4] == spec_hex_char(v / 16) && s[pos + 5] == spec_hex_char(
                v % 16,
            ));
            lemma_hex_char_val(v / 16);
            lemma_hex_char_val(v % 16);
            assert(is_hex('0') && hex_val('0') == 0);
            assert(hex4_ok(s, pos + 2));
            assert(hex4_val(s, pos + 2) == (v / 16) * 16 + (v % 16));
            assert(hex4_val(s, pos + 2) == v);
            let h = hex4_val(s, pos + 2);
            assert(h < 0xD800);
            vstd::utf8::char_u32_cast(c, c as u32);
            assert((h as u32) as char == c);
        } else {
            assert(e1 =~= seq![c]);
            assert(s[pos + 0] == esc[0]);
            assert(esc[0] == e1[0]);
            assert(s[pos] == c);
            assert(!(s[pos] == '"') && !(s[pos] == '\\') && (s[pos] as u32) >= 32);
        }
        assert(seq![c] + rest =~= content);
        assert(pos + esc.len() + 1 == next + esc_rest.len() + 1);
        assert(spec_parse_string_body(s, pos) == Some((content, pos + esc.len() + 1)));
    }
}

/// Parsing a number over the decimal rendering of an unsigned integer
/// yields the integer back, as long as no digit-like character follows.
pub proof fn lemma_number_of_dec(n: u64, s: Seq<char>, pos: int)
    requires
        0 <= pos,
        pos + spec_dec(n).len() <= s.len(),
        s.subrange(pos, pos + spec_dec(n).len()) == spec_dec(n),
        pos + spec_dec(n).len() == s.len() || !num_extender(s[pos + spec_dec(n).len()]),
    ensures
        spec_parse_number(s, pos) == Some((JsonV::Num(n), pos + spec_dec(n).len())),
{
    let d = spec_dec(n);
    lemma_dec_props(n);
    assert(forall|i: int| 0 <= i < d.len() ==> s[pos + i] == #[trigger] d[i]) by {
        assert(forall|i: int|
            0 <= i < d.len() ==> s.subrange(pos, pos + d.len())[i] == #[trigger] d[i]);
    }
    assert(s[pos + 0] == d[0]);
    assert(is_digit(s[pos]));
    assert(!(s[pos] == '-'));
    assert forall|i: int| 0 <= i < d.len() implies is_digit(#[trigger] s[pos + i]) by {
        assert(s[pos + i] == d[i]);
        assert(is_digit(d[i]));
    }
    lemma_scan_digits_span(s, pos, d.len() as int);
    let ie = pos + d.len();
    assert(spec_scan_digits(s, pos) == ie);
    if ie < s.len() {
        assert(!num_extender(s[ie]));
        assert(!(s[ie] == '.') && !(s[ie] == 'e') && !(s[ie] == 'E'));
    }
    assert(s.subrange(pos, ie) == d);
    assert(spec_digits_val(d) == n);
    assert(spec_parse_number(s, pos) == Some((JsonV::Num(n), ie)));
}

/// Splits a known span into its two parts.
pub proof fn lemma_split_span(s: Seq<char>, pos: int, a: Seq<char>, b: Seq<char>)
    requires
        0 <= pos,
        pos + a.len() + b.len() <= s.len(),
        s.subrange(pos, pos + a.len() + b.len()) == a + b,
    ensures
        s.subrange(pos, pos + a.len()) == a,
        s.subrange(pos + a.len(), pos + a.len() + b.len()) == b,
{
    let whole = s.subrange(pos, pos + a.len() + b.len());
    assert(s.subrange(pos, pos + a.len()) =~= a) by {
        assert(forall|i: int|
            0 <= i < a.len() ==> #[trigger] s.subrange(pos, pos + a.len())[i] == s[pos
                + i]);
        assert(forall|i: int| 0 <= i < a.len() ==> #[trigger] whole[i] == s[pos + i]);
        assert(forall|i: int| 0 <= i < a.len() ==> #[trigger] whole[i] == a[i]);
    }
    assert(s.subrange(pos + a.len(), pos + a.len() + b.len()) =~= b) by {
        assert(forall|i: int|
            0 <= i < b.len() ==> #[trigger] s.subrange(
                pos + a.len(),
                pos + a.len() + b.len(),
            )[i] == s[pos + a.len() + i]);
        assert(forall|i: int|
            0 <= i < b.len() ==> #[trigger] whole[a.len() + i] == s[pos + a.len() + i]);
        assert(forall|i: int| 0 <= i < b.len() ==> whole[a.len() + i] == #[trigger] b[i]);
    }
}

/// Reads one character out of a known span.
pub proof fn lemma_char_at(s: Seq<char>, pos: int, part: Seq<char>, i: int)
    requires
        0 <= pos,
        pos + part.len() <= s.len(),
        s.subrange(pos, pos + part.len()) == part,
        0 <= i < part.len(),
    ensures
        s[pos + i] == part[i],
{
    assert(s.subrange(pos, pos + part.len())[i] == s[pos + i]);
}

/// The first character of a printed value: never whitespace, never a
/// closing bracket or separator, and never something that would extend
/// a preceding number.
pub proof fn lemma_print_first(j: JsonV)
    requires
        wf_json(j),
    ensures
        spec_print(j).len() >= 1,
        !is_ws(spec_print(j)[0]),
        spec_print(j)[0] != ']',
        spec_print(j)[0] != '}',
        spec_print(j)[0] != ',',
        spec_print(j)[0] != ':',
{
    match j {
        JsonV::Num(n) => {
            lemma_dec_props(n);
            assert(is_digit(spec_print(j)[0]));
        },
        JsonV::Bool(b) => {
            if b {
            } else {
            }
        },
        _ => {},
    }
}

/// Parsing a value over its canonical text yields the value back.
#[verifier::rlimit(100)]
pub proof fn lemma_value_of_print(j: JsonV, s: Seq<char>, pos: int)
    requires
        wf_json(j),
        0 <= pos,
        pos + spec_print(j).len() <= s.len(),
        s.subrange(pos, pos + spec_print(j).len()) == spec_print(j),
        pos + spec_print(j).len() == s.len() || !num_extender(
            s[pos + spec_print(j).len()],
        ),
    ensures
        spec_parse_value(s, pos) == Some((j, pos + spec_print(j).len())),
    decreases j, 0int,
{
    let p = spec_print(j);
    lemma_print_first(j);
    lemma_char_at(s, pos, p, 0);
    assert(s[pos] == p[0]);
    match j {
        JsonV::Null => {
            lemma_char_at(s, pos, p, 1);
            lemma_char_at(s, pos, p, 2);
            lemma_char_at(s, pos, p, 3);
            assert(s[pos] == 'n' && s[pos + 1] == 'u' && s[pos + 2] == 'l' && s[pos + 3]
                == 'l');
        },
        JsonV::Bool(b) => {
            lemma_char_at(s, pos, p, 1);
            lemma_char_at(s, pos, p, 2);
            lemma_char_at(s, pos, p, 3);
            if !b {
                lemma_char_at(s, pos, p, 4);
            }
        },
        JsonV::Num(n) => {
            lemma_dec_props(n);
            assert(is_digit(s[pos]));
            lemma_number_of_dec(n, s, pos);
        },
        JsonV::NumRaw(_) => {
            assert(false);
        },
        JsonV::Str(content) => {
            let esc = spec_escape(content);
            assert(p == seq!['"'] + esc + seq!['"']);
            assert(s[pos] == '"');
            lemma_split_span(s, pos, seq!['"'] + esc, seq!['"']);
            lemma_split_span(s, pos, seq!['"'], esc);
            lemma_char_at(s, pos + 1 + esc.len(), seq!['"'], 0);
            lemma_string_body(content, s, pos + 1);
            assert(spec_parse_value(s, pos) == Some((j, pos + p.len())));
        },
        JsonV::Arr(es) => {
            assert(s[pos] == '[');
            let pel = spec_print_elems(es);
            assert(p == seq!['['] + pel + seq![']']);
            lemma_split_span(s, pos, seq!['['] + pel, seq![']']);
            lemma_split_span(s, pos, seq!['['], pel);
            lemma_char_at(s, pos + 1 + pel.len(), seq![']'], 0);
            assert(s[pos + 1 + pel.len()] == ']');
            if es.len() == 0 {
                assert(pel =~= Seq::<char>::empty());
                assert(s[pos + 1] == ']');
                lemma_skip_ws_at(s, pos + 1);
                assert(spec_skip_ws(s, pos + 1) == pos + 1);
                assert(spec_parse_value(s, pos) == Some((JsonV::Arr(Seq::empty()), pos
                    + 2)));
                assert(j == JsonV::Arr(es) && es =~= Seq::<JsonV>::empty());
            } else {
                lemma_wf_json_seq_index(es);
                lemma_print_elems_head(es);
                lemma_print_first(es[0]);
                lemma_char_at(s, pos + 1, pel, 0);
                assert(pel[0] == spec_print(es[0])[0]);
                assert(!is_ws(s[pos + 1]) && s[pos + 1] != ']');
                lemma_skip_ws_at(s, pos + 1);
                proof_decreases_elems(j, es);
                lemma_elems_of_print(es, s, pos + 1);
                assert(spec_parse_elems(s, pos + 1) == Some((es, pos + 1 + pel.len()
                    + 1)));
                assert(spec_parse_value(s, pos) == Some((j, pos + p.len())));
            }
        },
        JsonV::Obj(ms) => {
            assert(s[pos] == '{');
            let pms = spec_print_members(ms);
            assert(p == seq!['{'] + pms + seq!['}']);
            lemma_split_span(s, pos, seq!['{'] + pms, seq!['}']);
            lemma_split_span(s, pos, seq!['{'], pms);
            lemma_char_at(s, pos + 1 + pms.len(), seq!['}'], 0);
            assert(s[pos + 1 + pms.len()] == '}');
            if ms.len() == 0 {
                assert(pms =~= Seq::<char>::empty());
                assert(s[pos + 1] == '}');
                lemma_skip_ws_at(s, pos + 1);
                assert(spec_parse_value(s, pos) == Some(
                    (JsonV::Obj(Seq::empty()), pos + 2),
                ));
                assert(j == JsonV::Obj(ms) && ms =~= Seq::<(Seq<char>, JsonV)>::empty());
            } else {
                lemma_wf_json_members_index(ms);
                lemma_print_members_head(ms);
                lemma_char_at(s, pos + 1, pms, 0);
                assert(pms[0] == '"');
                assert(!is_ws(s[pos + 1]) && s[pos + 1] != '}');
                lemma_skip_ws_at(s, pos + 1);
                proof_decreases_members(j, ms);
                lemma_members_of_print(ms, s, pos + 1);
                assert(spec_parse_members(s, pos + 1) == Some((ms, pos + 1 + pms.len()
                    + 1)));
                assert(spec_parse_value(s, pos) == Some((j, pos + p.len())));
            }
        },
    }
}

/// Height facts used by the mutual induction.
proof fn proof_decreases_elems(j: JsonV, es: Seq<JsonV>)
    requires
        j == JsonV::Arr(es),
    ensures
        decreases_to!(j => es),
{
    assert(decreases_to!(j => j->Arr_0));
    assert(j->Arr_0 == es);
}

proof fn proof_decreases_members(j: JsonV, ms: Seq<(Seq<char>, JsonV)>)
    requires
        j == JsonV::Obj(ms),
    ensures
        decreases_to!(j => ms),
{
    assert(decreases_to!(j => j->Obj_0));
    assert(j->Obj_0 == ms);
}

/// Parsing the elements of a non-empty array over their canonical text
/// yields the elements back and consumes the closing bracket.
pub proof fn lemma_elems_of_print(es: Seq<JsonV>, s: Seq<char>, pos: int)
    requires
        wf_json_seq(es),
        es.len() > 0,
        0 <= pos,
        pos + spec_print_elems(es).len() + 1 <= s.len(),
        s.subrange(pos, pos + spec_print_elems(es).len()) == spec_print_elems(es),
        s[pos + spec_print_elems(es).len()] == ']',
    ensures
        spec_parse_elems(s, pos) == Some((es, pos + spec_print_elems(es).len() + 1)),
    decreases es, 1int,
{
    let pel = spec_print_elems(es);
    lemma_wf_json_seq_index(es);
    lemma_print_elems_head(es);
    let p0 = spec_print(es[0]);
    lemma_print_first(es[0]);
    if es.len() == 1 {
        assert(pel == p0 + Seq::<char>::empty());
        assert(pel =~= p0);
        lemma_value_of_print(es[0], s, pos);
        let e = pos + p0.len();
        assert(s[e] == ']');
        lemma_skip_ws_at(s, e);
        assert(spec_skip_ws(s, e) == e);
        assert(spec_parse_elems(s, pos) == Some((seq![es[0]], e + 1)));
        assert(seq![es[0]] =~= es);
    } else {
        let rest = es.drop_first();
        let prest = spec_print_elems(rest);
        assert(pel == p0 + (seq![','] + prest));
        lemma_split_span(s, pos, p0, seq![','] + prest);
        let e = pos + p0.len();
        lemma_split_span(s, e, seq![','], prest);
        lemma_char_at(s, e, seq![','], 0);
        assert(s[e] == ',');
        assert(!num_extender(s[e]));
        lemma_value_of_print(es[0], s, pos);
        lemma_skip_ws_at(s, e);
        assert(spec_skip_ws(s, e) == e);
        assert(s[pos + pel.len()] == ']');
        assert(pos + pel.len() == e + 1 + prest.len());
        lemma_elems_of_print(rest, s, e + 1);
        assert(spec_parse_elems(s, e + 1) == Some((rest, e + 1 + prest.len() + 1)));
        assert(spec_parse_elems(s, pos) == Some((seq![es[0]] + rest, pos + pel.len()
            + 1)));
        assert(seq![es[0]] + rest =~= es);
    }
}

/// Parsing the members of a non-empty object over their canonical text
/// yields the members back and consumes the closing brace.
pub proof fn lemma_members_of_print(ms: Seq<(Seq<char>, JsonV)>, s: Seq<char>, pos: int)
    requires
        wf_json_members(ms),
        ms.len() > 0,
        0 <= pos,
        pos + spec_print_members(ms).len() + 1 <= s.len(),
        s.subrange(pos, pos + spec_print_members(ms).len()) == spec_print_members(ms),
        s[pos + spec_print_members(ms).len()] == '}',
    ensures
        spec_parse_members(s, pos) == Some((ms, pos + spec_print_members(ms).len() + 1)),
    decreases ms, 1int,
{
    let pms = spec_print_members(ms);
    lemma_wf_json_members_index(ms);
    lemma_print_members_head(ms);
    let key = ms[0].0;
    let val = ms[0].1;
    let pkey = spec_print_string(key);
    let pval = spec_print(val);
    let head = pkey + seq![':'] + pval;
    lemma_print_first(val);
    let tail = if ms.len() == 1 {
        Seq::<char>::empty()
    } else {
        seq![','] + spec_print_members(ms.drop_first())
    };
    assert(pms == head + tail);
    lemma_split_span(s, pos, head, tail);
    assert(s.subrange(pos, pos + head.len()) == head);
    lemma_split_span(s, pos, pkey + seq![':'], pval);
    lemma_split_span(s, pos, pkey, seq![':']);
    // The key string.
    let esc = spec_escape(key);
    assert(pkey == seq!['"'] + esc + seq!['"']);
    lemma_split_span(s, pos, seq!['"'] + esc, seq!['"']);
    lemma_split_span(s, pos, seq!['"'], esc);
    lemma_char_at(s, pos, seq!['"'], 0);
    assert(s[pos] == '"');
    lemma_char_at(s, pos + 1 + esc.len(), seq!['"'], 0);
    lemma_string_body(key, s, pos + 1);
    let pk = pos + pkey.len();
    assert(spec_parse_string_body(s, pos + 1) == Some((key, pk)));
    // The colon.
    lemma_char_at(s, pos + pkey.len(), seq![':'], 0);
    assert(s[pk] == ':');
    lemma_skip_ws_at(s, pk);
    assert(spec_skip_ws(s, pk) == pk);
    // The value.
    let vstart = pk + 1;
    assert(s.subrange(vstart, vstart + pval.len()) == pval);
    let e = vstart + pval.len();
    if ms.len() == 1 {
        assert(tail =~= Seq::<char>::empty());
        assert(e == pos + pms.len());
        assert(s[e] == '}');
        assert(!num_extender(s[e]));
        lemma_value_of_print(val, s, vstart);
        lemma_skip_ws_at(s, e);
        assert(spec_parse_members(s, pos) == Some((seq![(key, val)], e + 1)));
        assert(seq![(key, val)] =~= ms);
    } else {
        let rest = ms.drop_first();
        let prest = spec_print_members(rest);
        lemma_split_span(s, e, seq![','], prest);
        lemma_char_at(s, e, seq![','], 0);
        assert(s[e] == ',');
        assert(!num_extender(s[e]));
        lemma_value_of_print(val, s, vstart);
        lemma_skip_ws_at(s, e);
        // After the comma stands the next key's opening quote.
        lemma_print_members_head(rest);
        lemma_char_at(s, e + 1, prest, 0);
        assert(prest[0] == '"');
        assert(!is_ws(s[e + 1]));
        lemma_skip_ws_at(s, e + 1);
        assert(pos + pms.len() == e + 1 + prest.len());
        assert(s[e + 1 + prest.len()] == '}');
        lemma_members_of_print(rest, s, e + 1);
        assert(spec_parse_members(s, e + 1) == Some((rest, e + 1 + prest.len() + 1)));
        assert(spec_parse_members(s, pos) == Some((seq![(key, val)] + rest, pos
            + pms.len() + 1)));
        assert(seq![(key, val)] + rest =~= ms);
    }
}

/// Round trip at the text layer: the canonical text of any well-formed
/// value parses back to exactly that value.
pub proof fn lemma_parse_print_round_trip(j: JsonV)
    requires
        wf_json(j),
    ensures
        spec_parse_text(spec_print(j)) == Some(j),
{
    let s = spec_print(j);
    assert(s.subrange(0, s.len() as int) =~= s);
    lemma_value_of_print(j, s, 0);
    lemma_skip_ws_at(s, s.len() as int);
}

/// A concrete member list is well-formed when each of its values is.
proof fn lemma_wf_members_of(ms: Seq<(Seq<char>, JsonV)>)
    requires
        forall|i: int| 0 <= i < ms.len() ==> wf_json((#[trigger] ms[i]).1),
    ensures
        wf_json_members(ms),
    decreases ms.len(),
{
    if ms.len() > 0 {
        assert(forall|i: int|
            0 <= i < ms.len() - 1 ==> ms.drop_last()[i] == #[trigger] ms[i]);
        lemma_wf_members_of(ms.drop_last());
    }
}

/// A concrete element list is well-formed when each element is.
proof fn lemma_wf_seq_of(es: Seq<JsonV>)
    requires
        forall|i: int| 0 <= i < es.len() ==> wf_json(#[trigger] es[i]),
    ensures
        wf_json_seq(es),
    decreases es.len(),
{
    if es.len() > 0 {
        assert(forall|i: int|
            0 <= i < es.len() - 1 ==> es.drop_last()[i] == #[trigger] es[i]);
        lemma_wf_seq_of(es.drop_last());
    }
}

/// The document this crate writes for a control envelope is always
/// well-formed: the printer can reproduce it.
pub proof fn lemma_wf_control_document(e: crate::model::event::GatewayEventV)
    requires
        crate::codec::envelope::wf_control_event(e),
    ensures
        wf_json(crate::codec::envelope::json_of_event(e)),
{
    let doc = crate::codec::envelope::json_of_event(e);
    let m = doc->Obj_0;
    let dj = match e.d {
        Some(p) => crate::codec::envelope::json_of_payload(p),
        None => JsonV::Null,
    };
    assert(wf_json(dj)) by {
        match e.d {
            Some(p) => match p {
                crate::model::event::PayloadV::Identify(i) => {
                    let pm = dj->Obj_0;
                    assert forall|k: int| 0 <= k < pm.len() implies wf_json(
                        (#[trigger] pm[k]).1,
                    ) by {
                        let props = pm[1].1;
                        if k == 1 {
                            let inner = props->Obj_0;
                            assert(forall|t: int|
                                0 <= t < inner.len() ==> wf_json(
                                    (#[trigger] inner[t]).1,
                                ));
                            lemma_wf_members_of(inner);
                        }
                        if k == 5 {
                            let arr = pm[5].1->Arr_0;
                            assert(forall|t: int|
                                0 <= t < arr.len() ==> wf_json(#[trigger] arr[t]));
                            lemma_wf_seq_of(arr);
                        }
                    }
                    lemma_wf_members_of(pm);
                },
                crate::model::event::PayloadV::Resume(_) => {
                    let pm = dj->Obj_0;
                    assert(forall|k: int|
                        0 <= k < pm.len() ==> wf_json((#[trigger] pm[k]).1));
                    lemma_wf_members_of(pm);
                },
                crate::model::event::PayloadV::Hello(_) => {
                    let pm = dj->Obj_0;
                    assert(forall|k: int|
                        0 <= k < pm.len() ==> wf_json((#[trigger] pm[k]).1));
                    lemma_wf_members_of(pm);
                },
                _ => {},
            },
            None => {},
        }
    }
    assert(forall|k: int| 0 <= k < m.len() ==> wf_json((#[trigger] m[k]).1));
    lemma_wf_members_of(m);
}

/// The round trip of the wire envelope: decoding the text this crate
/// encodes for any control envelope yields the envelope back.
pub proof fn lemma_envelope_round_trip(e: crate::model::event::GatewayEventV)
    requires
        crate::codec::envelope::wf_control_event(e),
    ensures
        crate::codec::envelope::spec_decode_event(
            crate::codec::envelope::spec_encode_event(e),
        ) == Ok::<crate::model::event::GatewayEventV, crate::codec::envelope::DecodeError>(
            e,
        ),
{
    let doc = crate::codec::envelope::json_of_event(e);
    lemma_wf_control_document(e);
    lemma_parse_print_round_trip(doc);
    assert(spec_parse_text(crate::codec::envelope::spec_encode_event(e)) == Some(doc));
    crate::codec::envelope::lemma_control_document_round_trip(e);
    let opval = crate::opcode::spec_opcode_value(e.op);
    crate::opcode::lemma_opcode_round_trip(opval, e.op);
    assert(crate::opcode::spec_opcode_wf(e.op));
    assert(crate::opcode::spec_opcode_of(opval) == e.op);
}

} // verus!
