//! The field visitor: how a projectable object's fields become ordered
//! key/value string pairs. Options contribute their key and value when
//! set and nothing when empty; identifier lists become comma-joined
//! decimal strings and are skipped when empty; booleans encode as the
//! store writes them, `1` and `0`.

use vstd::prelude::*;
use vstd::string::StringExecFns;
use crate::codec::num::{spec_dec, u64_to_decimal};
use crate::strutil::chars_to_string;

verus! {

broadcast use vstd::seq::group_seq_axioms, vstd::std_specs::vec::group_vec_axioms;

/// The spec-level value of a field list.
pub open spec fn fields_view(s: Seq<(String, String)>) -> Seq<(Seq<char>, Seq<char>)>
    decreases s.len(),
{
    if s.len() == 0 {
        Seq::empty()
    } else {
        fields_view(s.drop_last()).push((s.last().0@, s.last().1@))
    }
}

/// Pointwise reading of a field list's view.
pub proof fn lemma_fields_view_index(s: Seq<(String, String)>)
    ensures
        fields_view(s).len() == s.len(),
        forall|i: int| 0 <= i < s.len() ==> fields_view(s)[i] == (s[i].0@, s[i].1@),
    decreases s.len(),
{
    if s.len() > 0 {
        lemma_fields_view_index(s.drop_last());
    }
}

/// Appending one pair extends the view by its value.
pub proof fn lemma_fields_view_push(s: Seq<(String, String)>, p: (String, String))
    ensures
        fields_view(s.push(p)) == fields_view(s).push((p.0@, p.1@)),
{
    assert(s.push(p).drop_last() =~= s);
    assert(s.push(p).last() == p);
}

/// A provider of the store key an object is cached under.
pub trait RedisKeyProvider {
    fn get_key(&self) -> String;
}

/// A provider of an object's fields: the visitor each projectable type
/// implements in place of a derived encoder.
pub trait RedisFieldProvider {
    fn add_fields(self, out: &mut Vec<(String, String)>);
}

/// Appends a key with a string value.
pub fn push_str_field(out: &mut Vec<(String, String)>, key: &str, value: String)
    ensures
        fields_view(final(out)@) == fields_view(old(out)@).push((key@, value@)),
{
    let ghost ov = out@;
    let pair = (String::from_str(key), value);
    proof {
        lemma_fields_view_push(ov, pair);
    }
    out.push(pair);
}

/// Appends a key with an unsigned decimal value.
pub fn push_u64_field(out: &mut Vec<(String, String)>, key: &str, value: u64)
    ensures
        fields_view(final(out)@) == fields_view(old(out)@).push((key@, spec_dec(value))),
{
    push_str_field(out, key, chars_to_string(u64_to_decimal(value)));
}

/// Appends a key with a boolean value, written as the store writes
/// booleans: `1` for true and `0` for false.
pub fn push_bool_field(out: &mut Vec<(String, String)>, key: &str, value: bool)
    ensures
        fields_view(final(out)@) == fields_view(old(out)@).push(
            (
                key@,
                if value {
                    "1"@
                } else {
                    "0"@
                },
            ),
        ),
{
    if value {
        push_str_field(out, key, String::from_str("1"));
    } else {
        push_str_field(out, key, String::from_str("0"));
    }
}

/// What an optional field contributes: its key and value when set,
/// nothing when empty.
pub open spec fn opt_contrib(key: Seq<char>, v: Option<Seq<char>>) -> Seq<
    (Seq<char>, Seq<char>),
> {
    match v {
        Some(x) => seq![(key, x)],
        None => Seq::empty(),
    }
}

/// The view of an optional number as an optional decimal string.
pub open spec fn opt_dec(v: Option<u64>) -> Option<Seq<char>> {
    match v {
        Some(n) => Some(spec_dec(n)),
        None => None,
    }
}

/// The view of an optional string.
pub open spec fn opt_str(v: Option<String>) -> Option<Seq<char>> {
    match v {
        Some(s) => Some(s@),
        None => None,
    }
}

/// The view of an optional boolean, written as `1` or `0`.
pub open spec fn opt_bool(v: Option<bool>) -> Option<Seq<char>> {
    match v {
        Some(true) => Some("1"@),
        Some(false) => Some("0"@),
        None => None,
    }
}

/// Appends an optional string field: key and value when set, nothing
/// when empty.
pub fn push_opt_str_field(out: &mut Vec<(String, String)>, key: &str, value: Option<String>)
    ensures
        fields_view(final(out)@) == fields_view(old(out)@) + opt_contrib(
            key@,
            opt_str(value),
        ),
{
    let ghost ov = out@;
    match value {
        Some(s) => {
            push_str_field(out, key, s);
            proof {
                assert(fields_view(out@) =~= fields_view(ov) + opt_contrib(
                    key@,
                    opt_str(value),
                ));
            }
        },
        None => {
            proof {
                assert(fields_view(out@) =~= fields_view(ov) + opt_contrib(
                    key@,
                    opt_str(value),
                ));
            }
        },
    }
}

/// Appends an optional unsigned decimal field.
pub fn push_opt_u64_field(out: &mut Vec<(String, String)>, key: &str, value: Option<u64>)
    ensures
        fields_view(final(out)@) == fields_view(old(out)@) + opt_contrib(
            key@,
            opt_dec(value),
        ),
{
    let ghost ov = out@;
    match value {
        Some(n) => {
            push_u64_field(out, key, n);
            proof {
                assert(fields_view(out@) =~= fields_view(ov) + opt_contrib(
                    key@,
                    opt_dec(value),
                ));
            }
        },
        None => {
            proof {
                assert(fields_view(out@) =~= fields_view(ov) + opt_contrib(
                    key@,
                    opt_dec(value),
                ));
            }
        },
    }
}

/// Appends an optional boolean field.
pub fn push_opt_bool_field(out: &mut Vec<(String, String)>, key: &str, value: Option<bool>)
    ensures
        fields_view(final(out)@) == fields_view(old(out)@) + opt_contrib(
            key@,
            opt_bool(value),
        ),
{
    let ghost ov = out@;
    match value {
        Some(b) => {
            push_bool_field(out, key, b);
            proof {
                assert(fields_view(out@) =~= fields_view(ov) + opt_contrib(
                    key@,
                    opt_bool(value),
                ));
            }
        },
        None => {
            proof {
                assert(fields_view(out@) =~= fields_view(ov) + opt_contrib(
                    key@,
                    opt_bool(value),
                ));
            }
        },
    }
}

/// The comma-joined decimal rendering of an identifier list.
pub open spec fn spec_join_ids(s: Seq<u64>) -> Seq<char>
    decreases s.len(),
{
    if s.len() == 0 {
        Seq::empty()
    } else if s.len() == 1 {
        spec_dec(s[0])
    } else {
        spec_join_ids(s.drop_last()) + seq![','] + spec_dec(s.last())
    }
}

/// Renders an identifier list as comma-joined decimals.
pub fn join_ids(ids: &Vec<u64>) -> (r: String)
    ensures
        r@ == spec_join_ids(ids@),
{
    let mut out: Vec<char> = Vec::new();
    let mut i: usize = 0;
    proof {
        assert(ids@.take(0) =~= Seq::<u64>::empty());
    }
    while i < ids.len()
        invariant
            i <= ids@.len(),
            out@ == spec_join_ids(ids@.take(i as int)),
        decreases ids@.len() - i,
    {
        if i > 0 {
            out.push(',');
        }
        let mut d = u64_to_decimal(ids[i]);
        out.append(&mut d);
        proof {
            assert(ids@.take(i + 1).drop_last() =~= ids@.take(i as int));
            assert(ids@.take(i + 1).last() == ids@[i as int]);
            if i == 0 {
                assert(ids@.take(1) =~= seq![ids@[0]]);
            }
            assert(out@ =~= spec_join_ids(ids@.take(i + 1)));
        }
        i = i + 1;
    }
    proof {
        assert(ids@.take(ids@.len() as int) =~= ids@);
    }
    chars_to_string(out)
}

/// What an identifier list contributes: nothing when empty, else its key
/// with the comma-joined decimals.
pub open spec fn list_contrib(key: Seq<char>, ids: Seq<u64>) -> Seq<(Seq<char>, Seq<char>)> {
    if ids.len() == 0 {
        Seq::empty()
    } else {
        seq![(key, spec_join_ids(ids))]
    }
}

/// The comma-joined rendering of a string list.
pub open spec fn spec_join_strs(s: Seq<Seq<char>>) -> Seq<char>
    decreases s.len(),
{
    if s.len() == 0 {
        Seq::empty()
    } else if s.len() == 1 {
        s[0]
    } else {
        spec_join_strs(s.drop_last()) + seq![','] + s.last()
    }
}

/// The views of a string list.
pub open spec fn strs_view(s: Seq<String>) -> Seq<Seq<char>> {
    Seq::new(s.len(), |i: int| s[i]@)
}

/// Renders a string list comma-joined.
pub fn join_strs(items: &Vec<String>) -> (r: String)
    ensures
        r@ == spec_join_strs(strs_view(items@)),
{
    let ghost views = strs_view(items@);
    let mut out: Vec<char> = Vec::new();
    let mut i: usize = 0;
    proof {
        assert(views.take(0) =~= Seq::<Seq<char>>::empty());
    }
    while i < items.len()
        invariant
            i <= items@.len(),
            views == strs_view(items@),
            views.len() == items@.len(),
            forall|k: int| 0 <= k < items@.len() ==> views[k] == items@[k]@,
            out@ == spec_join_strs(views.take(i as int)),
        decreases items@.len() - i,
    {
        if i > 0 {
            out.push(',');
        }
        let mut cs = crate::strutil::str_to_chars(items[i].as_str());
        out.append(&mut cs);
        proof {
            assert(views.take(i + 1).drop_last() =~= views.take(i as int));
            assert(views.take(i + 1).last() == views[i as int]);
            if i == 0 {
                assert(views.take(1) =~= seq![views[0]]);
            }
            assert(out@ =~= spec_join_strs(views.take(i + 1)));
        }
        i = i + 1;
    }
    proof {
        assert(views.take(views.len() as int) =~= views);
    }
    chars_to_string(out)
}

/// Appends a string-list field, comma-joined; an empty list contributes
/// its key with an empty value.
pub fn push_str_list_field(out: &mut Vec<(String, String)>, key: &str, items: &Vec<String>)
    ensures
        fields_view(final(out)@) == fields_view(old(out)@).push(
            (key@, spec_join_strs(strs_view(items@))),
        ),
{
    push_str_field(out, key, join_strs(items));
}

/// The flattened argument list of a field list: each pair contributes
/// its key then its value.
pub open spec fn spec_flatten(s: Seq<(Seq<char>, Seq<char>)>) -> Seq<Seq<char>>
    decreases s.len(),
{
    if s.len() == 0 {
        Seq::empty()
    } else {
        spec_flatten(s.drop_last()).push(s.last().0).push(s.last().1)
    }
}

/// Flattens a field list into one argument list.
pub fn flatten_fields(pairs: &Vec<(String, String)>) -> (r: Vec<String>)
    ensures
        strs_view(r@) == spec_flatten(fields_view(pairs@)),
{
    let ghost pv = fields_view(pairs@);
    proof {
        lemma_fields_view_index(pairs@);
    }
    let mut out: Vec<String> = Vec::new();
    let mut i: usize = 0;
    proof {
        assert(pv.take(0) =~= Seq::<(Seq<char>, Seq<char>)>::empty());
        assert(strs_view(out@) =~= spec_flatten(pv.take(0)));
    }
    while i < pairs.len()
        invariant
            i <= pairs@.len(),
            pv == fields_view(pairs@),
            pv.len() == pairs@.len(),
            forall|k: int| 0 <= k < pairs@.len() ==> pv[k] == (pairs@[k].0@, pairs@[k].1@),
            strs_view(out@) == spec_flatten(pv.take(i as int)),
        decreases pairs@.len() - i,
    {
        out.push(pairs[i].0.clone());
        out.push(pairs[i].1.clone());
        proof {
            assert(pv.take(i + 1).drop_last() =~= pv.take(i as int));
            assert(pv.take(i + 1).last() == pv[i as int]);
            assert(strs_view(out@) =~= spec_flatten(pv.take(i + 1)));
        }
        i = i + 1;
    }
    proof {
        assert(pv.take(pv.len() as int) =~= pv);
    }
    out
}

/// A projectable object cached under its own key.
pub trait Cacheable: RedisKeyProvider + RedisFieldProvider {

}

/// A projectable object appended to a stream.
pub trait Streamable: RedisFieldProvider {

}

/// Appends an identifier-list field: skipped when the list is empty.
pub fn push_id_list_field(out: &mut Vec<(String, String)>, key: &str, ids: &Vec<u64>)
    ensures
        fields_view(final(out)@) == fields_view(old(out)@) + list_contrib(key@, ids@),
{
    let ghost ov = out@;
    if ids.len() > 0 {
        push_str_field(out, key, join_ids(ids));
        proof {
            assert(fields_view(out@) =~= fields_view(ov) + list_contrib(key@, ids@));
        }
    } else {
        proof {
            assert(fields_view(out@) =~= fields_view(ov) + list_contrib(key@, ids@));
        }
    }
}

} // verus!
