//! A small JSON document tree with a verified renderer.
//!
//! Every request body in this crate is first assembled as a [`JsonValue`] and
//! then rendered to its wire form by [`render`]. The mathematical model of a
//! document is [`JVal`]; [`spec_render`] states exactly which character
//! sequence a document renders to.

use vstd::prelude::*;
use vstd::string::StrSliceExecFns;
use vstd::string::StringExecFns;

verus! {

broadcast use vstd::std_specs::vec::group_vec_axioms;

/// Appends one character to a string.
///
/// Relies on `String::push` of std: "Appends the given char to the end of
/// this String."
pub assume_specification[ String::push ](s: &mut String, c: char)
    ensures
        final(s)@ == old(s)@.push(c),
;

/// Mathematical model of a JSON document. A fraction is an exact rational
/// with the fixed denominator 1 000 000 (its field is the numerator).
pub enum JVal {
    Null,
    Bool(bool),
    UInt(int),
    Frac(int),
    Str(Seq<char>),
    Arr(Seq<JVal>),
    Obj(Seq<(Seq<char>, JVal)>),
}

/// A JSON document as a value. `Frac(m)` stands for the rational
/// m / 1 000 000; it renders as a plain decimal number.
#[derive(Debug)]
pub enum JsonValue {
    Null,
    Bool(bool),
    UInt(u64),
    Frac(u32),
    Str(String),
    Arr(Vec<JsonValue>),
    Obj(Vec<(String, JsonValue)>),
}

impl View for JsonValue {
    type V = JVal;

    open spec fn view(&self) -> JVal
        decreases self,
    {
        match self {
            JsonValue::Null => JVal::Null,
            JsonValue::Bool(b) => JVal::Bool(*b),
            JsonValue::UInt(n) => JVal::UInt(*n as int),
            JsonValue::Frac(m) => JVal::Frac(*m as int),
            JsonValue::Str(s) => JVal::Str(s@),
            JsonValue::Arr(items) => {
                proof {
                    assert(decreases_to!(*items => items@));
                }
                JVal::Arr(arr_view(items@))
            },
            JsonValue::Obj(fields) => {
                proof {
                    assert(decreases_to!(*fields => fields@));
                }
                JVal::Obj(obj_view(fields@))
            },
        }
    }
}

/// The models of an array's elements, in order.
pub open spec fn arr_view(s: Seq<JsonValue>) -> Seq<JVal>
    decreases s,
{
    if s.len() == 0 {
        Seq::empty()
    } else {
        arr_view(s.drop_last()).push(s.last()@)
    }
}

/// The models of an object's fields, in order.
pub open spec fn obj_view(s: Seq<(String, JsonValue)>) -> Seq<(Seq<char>, JVal)>
    decreases s,
{
    if s.len() == 0 {
        Seq::empty()
    } else {
        obj_view(s.drop_last()).push((s.last().0@, s.last().1@))
    }
}

/// An array's model has one element per entry, the entry's own model.
pub broadcast proof fn lemma_arr_view_pointwise(s: Seq<JsonValue>)
    ensures
        (#[trigger] arr_view(s)).len() == s.len(),
        forall|i: int| 0 <= i < s.len() ==> arr_view(s)[i] == s[i]@,
    decreases s.len(),
{
    if s.len() > 0 {
        lemma_arr_view_pointwise(s.drop_last());
        assert(arr_view(s) == arr_view(s.drop_last()).push(s.last()@));
        assert forall|i: int| 0 <= i < s.len() implies arr_view(s)[i] == s[i]@ by {
            if i < s.len() - 1 {
                assert(arr_view(s)[i] == arr_view(s.drop_last())[i]);
                assert(s.drop_last()[i] == s[i]);
            } else {
                assert(arr_view(s)[i] == s.last()@);
            }
        }
    } else {
        assert(arr_view(s) == Seq::<JVal>::empty());
    }
}

/// An object's model has one field per entry: the key's characters and the
/// value's model.
pub broadcast proof fn lemma_obj_view_pointwise(s: Seq<(String, JsonValue)>)
    ensures
        (#[trigger] obj_view(s)).len() == s.len(),
        forall|i: int| 0 <= i < s.len() ==> obj_view(s)[i] == (s[i].0@, s[i].1@),
    decreases s.len(),
{
    if s.len() > 0 {
        lemma_obj_view_pointwise(s.drop_last());
        assert(obj_view(s) == obj_view(s.drop_last()).push((s.last().0@, s.last().1@)));
        assert forall|i: int| 0 <= i < s.len() implies obj_view(s)[i] == (s[i].0@, s[i].1@) by {
            if i < s.len() - 1 {
                assert(obj_view(s)[i] == obj_view(s.drop_last())[i]);
                assert(s.drop_last()[i] == s[i]);
            } else {
                assert(obj_view(s)[i] == (s.last().0@, s.last().1@));
            }
        }
    } else {
        assert(obj_view(s) == Seq::<(Seq<char>, JVal)>::empty());
    }
}

/// The decimal digit character for d (0 through 9).
pub open spec fn spec_digit_char(d: int) -> char {
    if d == 0 {
        '0'
    } else if d == 1 {
        '1'
    } else if d == 2 {
        '2'
    } else if d == 3 {
        '3'
    } else if d == 4 {
        '4'
    } else if d == 5 {
        '5'
    } else if d == 6 {
        '6'
    } else if d == 7 {
        '7'
    } else if d == 8 {
        '8'
    } else {
        '9'
    }
}

/// Decimal rendering of a nonnegative integer, most significant digit first.
pub open spec fn spec_dec_str(n: int) -> Seq<char>
    decreases n,
{
    if n < 10 {
        seq![spec_digit_char(n)]
    } else {
        spec_dec_str(n / 10).push(spec_digit_char(n % 10))
    }
}

/// The six digits of r (0 <= r < 1 000 000), most significant first.
pub open spec fn spec_pad6(r: int) -> Seq<char> {
    seq![
        spec_digit_char((r / 100000) % 10),
        spec_digit_char((r / 10000) % 10),
        spec_digit_char((r / 1000) % 10),
        spec_digit_char((r / 100) % 10),
        spec_digit_char((r / 10) % 10),
        spec_digit_char(r % 10),
    ]
}

/// How many of the six fractional digits of r remain once trailing zeros are
/// trimmed; at least one digit always remains.
pub open spec fn spec_frac_digit_count(r: int) -> int {
    if r % 10 != 0 {
        6
    } else if r % 100 != 0 {
        5
    } else if r % 1000 != 0 {
        4
    } else if r % 10000 != 0 {
        3
    } else if r % 100000 != 0 {
        2
    } else {
        1
    }
}

/// Decimal rendering of the rational m / 1 000 000: the integer part, a
/// decimal point, and the fractional digits with trailing zeros trimmed.
pub open spec fn spec_frac_str(m: int) -> Seq<char> {
    spec_dec_str(m / 1000000) + seq!['.'] + spec_pad6(m % 1000000).take(
        spec_frac_digit_count(m % 1000000),
    )
}

/// JSON escaping of one character: quotes and backslashes take a backslash
/// prefix, every other character stands for itself.
pub open spec fn spec_escape_char(c: char) -> Seq<char> {
    if c == '"' || c == '\\' {
        seq!['\\', c]
    } else {
        seq![c]
    }
}

/// JSON escaping of a character sequence.
pub open spec fn spec_escape(s: Seq<char>) -> Seq<char>
    decreases s.len(),
{
    if s.len() == 0 {
        Seq::empty()
    } else {
        spec_escape(s.drop_last()) + spec_escape_char(s.last())
    }
}

/// A JSON string literal: the escaped contents between double quotes.
pub open spec fn spec_quoted(s: Seq<char>) -> Seq<char> {
    seq!['"'] + spec_escape(s) + seq!['"']
}

/// The exact character sequence a JSON document renders to.
pub open spec fn spec_render(j: JVal) -> Seq<char>
    decreases j,
{
    match j {
        JVal::Null => "null"@,
        JVal::Bool(b) => if b {
            "true"@
        } else {
            "false"@
        },
        JVal::UInt(n) => spec_dec_str(n),
        JVal::Frac(m) => spec_frac_str(m),
        JVal::Str(s) => spec_quoted(s),
        JVal::Arr(els) => seq!['['] + spec_render_arr(els) + seq![']'],
        JVal::Obj(fields) => seq!['{'] + spec_render_obj(fields) + seq!['}'],
    }
}

/// The comma-separated renderings of an array's elements.
pub open spec fn spec_render_arr(els: Seq<JVal>) -> Seq<char>
    decreases els, els.len(),
{
    if els.len() == 0 {
        Seq::empty()
    } else if els.len() == 1 {
        spec_render(els.last())
    } else {
        spec_render_arr(els.drop_last()) + seq![','] + spec_render(els.last())
    }
}

/// The comma-separated `"key":value` renderings of an object's fields.
pub open spec fn spec_render_obj(fields: Seq<(Seq<char>, JVal)>) -> Seq<char>
    decreases fields, fields.len(),
{
    if fields.len() == 0 {
        Seq::empty()
    } else {
        let init = if fields.len() == 1 {
            Seq::<char>::empty()
        } else {
            spec_render_obj(fields.drop_last()) + seq![',']
        };
        init + spec_quoted(fields.last().0) + seq![':'] + spec_render(fields.last().1)
    }
}

/// Renders the decimal digit character for d.
fn digit_char(d: u8) -> (c: char)
    requires
        d < 10,
    ensures
        c == spec_digit_char(d as int),
{
    match d {
        0 => '0',
        1 => '1',
        2 => '2',
        3 => '3',
        4 => '4',
        5 => '5',
        6 => '6',
        7 => '7',
        8 => '8',
        _ => '9',
    }
}

/// Appends the decimal rendering of n.
fn append_dec_u64(n: u64, out: &mut String)
    ensures
        final(out)@ == old(out)@ + spec_dec_str(n as int),
    decreases n,
{
    if n < 10 {
        out.push(digit_char(n as u8));
    } else {
        append_dec_u64(n / 10, out);
        out.push(digit_char((n % 10) as u8));
    }
    assert(final(out)@ =~= old(out)@ + spec_dec_str(n as int));
}

/// Appends the decimal rendering of the rational m / 1 000 000.
fn append_frac(m: u32, out: &mut String)
    ensures
        final(out)@ == old(out)@ + spec_frac_str(m as int),
{
    append_dec_u64((m / 1000000) as u64, out);
    out.push('.');
    let r = m % 1000000;
    let count: u32 = if r % 10 != 0 {
        6
    } else if r % 100 != 0 {
        5
    } else if r % 1000 != 0 {
        4
    } else if r % 10000 != 0 {
        3
    } else if r % 100000 != 0 {
        2
    } else {
        1
    };
    out.push(digit_char(((r / 100000) % 10) as u8));
    if count >= 2 {
        out.push(digit_char(((r / 10000) % 10) as u8));
    }
    if count >= 3 {
        out.push(digit_char(((r / 1000) % 10) as u8));
    }
    if count >= 4 {
        out.push(digit_char(((r / 100) % 10) as u8));
    }
    if count >= 5 {
        out.push(digit_char(((r / 10) % 10) as u8));
    }
    if count == 6 {
        out.push(digit_char((r % 10) as u8));
    }
    assert(final(out)@ =~= old(out)@ + spec_frac_str(m as int));
}

/// Appends the quoted, escaped rendering of s.
fn append_quoted(s: &str, out: &mut String)
    ensures
        final(out)@ == old(out)@ + spec_quoted(s@),
{
    out.push('"');
    let len = s.unicode_len();
    assert(s@.take(0) =~= Seq::<char>::empty());
    for i in 0..len
        invariant
            len == s@.len(),
            out@ == old(out)@ + seq!['"'] + spec_escape(s@.take(i as int)),
    {
        let c = s.get_char(i);
        if c == '"' || c == '\\' {
            out.push('\\');
        }
        out.push(c);
        proof {
            assert(s@.take(i + 1).drop_last() =~= s@.take(i as int));
            assert(s@.take(i + 1).last() == s@[i as int]);
            assert(out@ =~= old(out)@ + seq!['"'] + spec_escape(s@.take(i + 1)));
        }
    }
    out.push('"');
    proof {
        assert(s@.take(len as int) =~= s@);
        assert(final(out)@ =~= old(out)@ + spec_quoted(s@));
    }
}

/// Appends the rendering of j.
fn render_into(j: &JsonValue, out: &mut String)
    ensures
        final(out)@ == old(out)@ + spec_render(j@),
    decreases j@,
{
    match j {
        JsonValue::Null => {
            out.append("null");
        },
        JsonValue::Bool(b) => {
            if *b {
                out.append("true");
            } else {
                out.append("false");
            }
        },
        JsonValue::UInt(n) => {
            append_dec_u64(*n, out);
        },
        JsonValue::Frac(m) => {
            append_frac(*m, out);
        },
        JsonValue::Str(s) => {
            append_quoted(s.as_str(), out);
        },
        JsonValue::Arr(items) => {
            proof {
                lemma_arr_view_pointwise(items@);
            }
            let ghost vs = arr_view(items@);
            out.push('[');
            assert(vs.take(0) =~= Seq::<JVal>::empty());
            for i in 0..items.len()
                invariant
                    j@ is Arr && j@->Arr_0 == vs,
                    vs == arr_view(items@),
                    vs.len() == items@.len(),
                    forall|k: int| 0 <= k < items@.len() ==> vs[k] == items@[k]@,
                    out@ == old(out)@ + seq!['['] + spec_render_arr(vs.take(i as int)),
            {
                if i > 0 {
                    out.push(',');
                }
                proof {
                    assert(j@ is Arr && j@->Arr_0 == vs);
                    assert(decreases_to!(j@ => vs));
                    assert(decreases_to!(vs => vs[i as int]));
                    assert(items@[i as int]@ == vs[i as int]);
                }
                render_into(&items[i], out);
                proof {
                    assert(vs.take(i + 1).drop_last() =~= vs.take(i as int));
                    assert(vs.take(i + 1).last() == vs[i as int]);
                    assert(out@ =~= old(out)@ + seq!['['] + spec_render_arr(vs.take(i + 1)));
                }
            }
            out.push(']');
            proof {
                assert(vs.take(items@.len() as int) =~= vs);
                assert(final(out)@ =~= old(out)@ + spec_render(j@));
            }
        },
        JsonValue::Obj(fields) => {
            proof {
                lemma_obj_view_pointwise(fields@);
            }
            let ghost vs = obj_view(fields@);
            out.push('{');
            assert(vs.take(0) =~= Seq::<(Seq<char>, JVal)>::empty());
            for i in 0..fields.len()
                invariant
                    j@ is Obj && j@->Obj_0 == vs,
                    vs == obj_view(fields@),
                    vs.len() == fields@.len(),
                    forall|k: int| 0 <= k < fields@.len() ==> vs[k] == (fields@[k].0@, fields@[k].1@),
                    out@ == old(out)@ + seq!['{'] + spec_render_obj(vs.take(i as int)),
            {
                if i > 0 {
                    out.push(',');
                }
                append_quoted(fields[i].0.as_str(), out);
                out.push(':');
                proof {
                    assert(j@ is Obj && j@->Obj_0 == vs);
                    assert(decreases_to!(j@ => vs));
                    assert(decreases_to!(vs => vs[i as int]));
                    assert(decreases_to!(vs[i as int] => vs[i as int].1));
                    assert(fields@[i as int].1@ == vs[i as int].1);
                }
                render_into(&fields[i].1, out);
                proof {
                    assert(vs.take(i + 1).drop_last() =~= vs.take(i as int));
                    assert(vs.take(i + 1).last() == vs[i as int]);
                    assert(out@ =~= old(out)@ + seq!['{'] + spec_render_obj(vs.take(i + 1)));
                }
            }
            out.push('}');
            proof {
                assert(vs.take(fields@.len() as int) =~= vs);
                assert(final(out)@ =~= old(out)@ + spec_render(j@));
            }
        },
    }
}

/// The serialized form of an optional boolean: the value, or null if unset.
pub open spec fn opt_bool_model(b: Option<bool>) -> JVal {
    match b {
        None => JVal::Null,
        Some(x) => JVal::Bool(x),
    }
}

/// Serializes an optional boolean.
pub fn opt_bool_json(b: &Option<bool>) -> (r: JsonValue)
    ensures
        r@ == opt_bool_model(*b),
{
    match b {
        None => JsonValue::Null,
        Some(x) => JsonValue::Bool(*x),
    }
}

/// The serialized form of an optional small integer: the number, or null.
pub open spec fn opt_u8_model(n: Option<u8>) -> JVal {
    match n {
        None => JVal::Null,
        Some(x) => JVal::UInt(x as int),
    }
}

/// Serializes an optional small integer.
pub fn opt_u8_json(n: &Option<u8>) -> (r: JsonValue)
    ensures
        r@ == opt_u8_model(*n),
{
    match n {
        None => JsonValue::Null,
        Some(x) => JsonValue::UInt(*x as u64),
    }
}

/// The serialized form of an optional pixel count: the number, or null.
pub open spec fn opt_u32_model(n: Option<u32>) -> JVal {
    match n {
        None => JVal::Null,
        Some(x) => JVal::UInt(x as int),
    }
}

/// Serializes an optional pixel count.
pub fn opt_u32_json(n: &Option<u32>) -> (r: JsonValue)
    ensures
        r@ == opt_u32_model(*n),
{
    match n {
        None => JsonValue::Null,
        Some(x) => JsonValue::UInt(*x as u64),
    }
}

/// The serialized form of an optional string: the string, or null.
pub open spec fn opt_str_model(s: Option<Seq<char>>) -> JVal {
    match s {
        None => JVal::Null,
        Some(x) => JVal::Str(x),
    }
}

/// Serializes an optional string.
pub fn opt_string_json(s: &Option<String>) -> (r: JsonValue)
    ensures
        r@ == opt_str_model(s.deep_view()),
{
    match s {
        None => JsonValue::Null,
        Some(x) => JsonValue::Str(x.clone()),
    }
}


/// Copies a JSON document.
pub fn clone_json(j: &JsonValue) -> (r: JsonValue)
    ensures
        r@ == j@,
    decreases j@,
{
    match j {
        JsonValue::Null => JsonValue::Null,
        JsonValue::Bool(b) => JsonValue::Bool(*b),
        JsonValue::UInt(n) => JsonValue::UInt(*n),
        JsonValue::Frac(m) => JsonValue::Frac(*m),
        JsonValue::Str(s) => JsonValue::Str(s.clone()),
        JsonValue::Arr(items) => {
            proof {
                lemma_arr_view_pointwise(items@);
            }
            let ghost vs = arr_view(items@);
            let mut copies: Vec<JsonValue> = Vec::new();
            let mut i: usize = 0;
            while i < items.len()
                invariant
                    i <= items.len(),
                    j@ is Arr && j@->Arr_0 == vs,
                    vs == arr_view(items@),
                    vs.len() == items@.len(),
                    forall|k: int| 0 <= k < items@.len() ==> vs[k] == items@[k]@,
                    copies@.len() == i,
                    forall|k: int| 0 <= k < i ==> copies@[k]@ == vs[k],
                decreases items.len() - i,
            {
                proof {
                    assert(decreases_to!(j@ => vs));
                    assert(decreases_to!(vs => vs[i as int]));
                    assert(items@[i as int]@ == vs[i as int]);
                }
                let c = clone_json(&items[i]);
                copies.push(c);
                i += 1;
            }
            let r = JsonValue::Arr(copies);
            proof {
                lemma_arr_view_pointwise(r->Arr_0@);
                assert(r@->Arr_0 =~~= vs);
            }
            r
        },
        JsonValue::Obj(fields) => {
            proof {
                lemma_obj_view_pointwise(fields@);
            }
            let ghost vs = obj_view(fields@);
            let mut copies: Vec<(String, JsonValue)> = Vec::new();
            let mut i: usize = 0;
            while i < fields.len()
                invariant
                    i <= fields.len(),
                    j@ is Obj && j@->Obj_0 == vs,
                    vs == obj_view(fields@),
                    vs.len() == fields@.len(),
                    forall|k: int| 0 <= k < fields@.len() ==> vs[k] == (fields@[k].0@, fields@[k].1@),
                    copies@.len() == i,
                    forall|k: int| 0 <= k < i ==> (copies@[k].0@, copies@[k].1@) == vs[k],
                decreases fields.len() - i,
            {
                proof {
                    assert(decreases_to!(j@ => vs));
                    assert(decreases_to!(vs => vs[i as int]));
                    assert(decreases_to!(vs[i as int] => vs[i as int].1));
                    assert(fields@[i as int].1@ == vs[i as int].1);
                }
                let k = fields[i].0.clone();
                let c = clone_json(&fields[i].1);
                copies.push((k, c));
                i += 1;
            }
            let r = JsonValue::Obj(copies);
            proof {
                lemma_obj_view_pointwise(r->Obj_0@);
                assert(r@->Obj_0 =~~= vs);
            }
            r
        },
    }
}

/// Renders a JSON document to its wire form.
pub fn render(j: &JsonValue) -> (r: String)
    ensures
        r@ == spec_render(j@),
{
    let mut out = String::new();
    render_into(j, &mut out);
    assert(out@ =~= spec_render(j@));
    out
}

} // verus!
