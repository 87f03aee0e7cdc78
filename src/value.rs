//! Conversion between the host's dynamic values and JSON values.
use vstd::prelude::*;

verus! {

/// A JSON number, held as serde_json holds it: a non-negative integer, a
/// negative integer, or a finite IEEE-754 double given by its bit pattern.
#[derive(Clone, Copy, Debug, PartialEq, Eq, Structural)]
pub enum JsonNumber {
    PosInt(u64),
    NegInt(i64),
    Float(u64),
}

/// A JSON value. An object keeps its entries in order.
#[derive(Debug)]
pub enum JsonValue {
    Null,
    Bool(bool),
    Number(JsonNumber),
    String(String),
    Array(Vec<JsonValue>),
    Object(Vec<(String, JsonValue)>),
}

/// A value of the host runtime as it crosses into the bridge. A double is
/// held by its bit pattern; `Opaque` stands for every variant of the host
/// that has no JSON counterpart.
#[derive(Debug)]
pub enum DynValue {
    Void,
    Bool(bool),
    Int(i64),
    Num(u64),
    Str(String),
    Char(char),
    Symbol(String),
    Bytes(Vec<u8>),
    Vector(Vec<DynValue>),
    HashMap(Vec<(DynValue, DynValue)>),
    Opaque,
}

/// Why a dynamic value has no JSON form.
#[derive(Clone, Copy, Debug, PartialEq, Eq, Structural)]
pub enum ConversionError {
    UnsupportedVariant,
    NonStringKey,
}

/// The exponent field of a double's bit pattern is not all ones: the double
/// is neither infinite nor NaN.
pub open spec fn finite_bits(b: u64) -> bool {
    (b >> 52u64) & 0x7ffu64 != 0x7ffu64
}

/// The JSON number of an integer of the host.
pub open spec fn number_of_int(i: int) -> JsonNumber {
    if i < 0 {
        JsonNumber::NegInt(i as i64)
    } else {
        JsonNumber::PosInt(i as u64)
    }
}

/// The text of a map key that may become a JSON object key.
pub open spec fn key_text(k: DynValue) -> Option<Seq<char>> {
    match k {
        DynValue::Str(s) => Some(s@),
        DynValue::Symbol(s) => Some(s@),
        _ => None,
    }
}

/// `d` has a JSON form.
pub open spec fn convertible(d: DynValue) -> bool
    decreases d,
{
    match d {
        DynValue::Symbol(_) => false,
        DynValue::Opaque => false,
        DynValue::Vector(vs) => forall|i: int| 0 <= i < vs@.len() ==> convertible(#[trigger] vs@[i]),
        DynValue::HashMap(ps) => forall|i: int|
            0 <= i < ps@.len() ==> key_text(#[trigger] ps@[i].0) is Some && convertible(ps@[i].1),
        _ => true,
    }
}

/// `j` is the JSON form of `d`.
pub open spec fn converts(d: DynValue, j: JsonValue) -> bool
    decreases d,
{
    match d {
        DynValue::Void => j == JsonValue::Null,
        DynValue::Bool(b) => j == JsonValue::Bool(b),
        DynValue::Int(i) => j == JsonValue::Number(number_of_int(i as int)),
        DynValue::Num(b) => if finite_bits(b) {
            j == JsonValue::Number(JsonNumber::Float(b))
        } else {
            j == JsonValue::Null
        },
        DynValue::Str(s) => j is String && j->String_0@ == s@,
        DynValue::Char(c) => j is String && j->String_0@ == seq![c],
        DynValue::Bytes(bs) => j is Array && j->Array_0@.len() == bs@.len() && forall|i: int|
            0 <= i < bs@.len() ==> #[trigger] j->Array_0@[i] == JsonValue::Number(
                JsonNumber::PosInt(bs@[i] as u64),
            ),
        DynValue::Vector(vs) => j is Array && j->Array_0@.len() == vs@.len() && forall|i: int|
            0 <= i < vs@.len() ==> converts(#[trigger] vs@[i], j->Array_0@[i]),
        DynValue::HashMap(ps) => j is Object && j->Object_0@.len() == ps@.len() && forall|i: int|
            0 <= i < ps@.len() ==> key_text(#[trigger] ps@[i].0) == Some(j->Object_0@[i].0@)
                && converts(ps@[i].1, j->Object_0@[i].1),
        DynValue::Symbol(_) => false,
        DynValue::Opaque => false,
    }
}

/// Converting `d` stops with error `e`: entries are taken in order, a map's
/// key before its value, and the first that has no JSON form decides.
pub open spec fn fails_with(d: DynValue, e: ConversionError) -> bool
    decreases d,
{
    match d {
        DynValue::Symbol(_) => e == ConversionError::UnsupportedVariant,
        DynValue::Opaque => e == ConversionError::UnsupportedVariant,
        DynValue::Vector(vs) => exists|i: int|
            0 <= i < vs@.len() && fails_with(#[trigger] vs@[i], e) && forall|k: int|
                0 <= k < i ==> convertible(#[trigger] vs@[k]),
        DynValue::HashMap(ps) => exists|i: int|
            0 <= i < ps@.len() && (forall|k: int|
                0 <= k < i ==> key_text(#[trigger] ps@[k].0) is Some && convertible(ps@[k].1)) && if key_text(
                #[trigger] ps@[i].0,
            ) is None {
                e == ConversionError::NonStringKey
            } else {
                fails_with(ps@[i].1, e)
            },
        _ => false,
    }
}


/// The JSON form of a host value, checked in the same order as
/// [`fails_with`] describes.
pub fn value_from_ffi_arg(d: &DynValue) -> (r: Result<JsonValue, ConversionError>)
    ensures
        r is Ok <==> convertible(*d),
        r matches Ok(j) ==> converts(*d, j),
        r matches Err(e) ==> fails_with(*d, e),
    decreases d,
{
    match d {
        DynValue::Void => Ok(JsonValue::Null),
        DynValue::Bool(b) => Ok(JsonValue::Bool(*b)),
        DynValue::Int(i) => Ok(JsonValue::Number(number_from_int(*i))),
        DynValue::Num(b) => {
            if (*b >> 52u64) & 0x7ffu64 != 0x7ffu64 {
                Ok(JsonValue::Number(JsonNumber::Float(*b)))
            } else {
                Ok(JsonValue::Null)
            }
        },
        DynValue::Str(s) => Ok(JsonValue::String(s.clone())),
        DynValue::Char(c) => Ok(JsonValue::String(char_text(*c))),
        DynValue::Bytes(bs) => {
            let mut out: Vec<JsonValue> = Vec::new();
            let mut i: usize = 0;
            while i < bs.len()
                invariant
                    i <= bs@.len(),
                    out@.len() == i,
                    forall|k: int|
                        0 <= k < i ==> #[trigger] out@[k] == JsonValue::Number(
                            JsonNumber::PosInt(bs@[k] as u64),
                        ),
                decreases bs@.len() - i,
            {
                out.push(JsonValue::Number(JsonNumber::PosInt(bs[i] as u64)));
                i += 1;
            }
            Ok(JsonValue::Array(out))
        },
        DynValue::Vector(vs) => {
            let mut out: Vec<JsonValue> = Vec::new();
            let mut i: usize = 0;
            while i < vs.len()
                invariant
                    *d == DynValue::Vector(*vs),
                    i <= vs@.len(),
                    out@.len() == i,
                    forall|k: int|
                        0 <= k < i ==> converts(#[trigger] vs@[k], out@[k]) && convertible(vs@[k]),
                decreases vs@.len() - i,
            {
                proof {
                    assert(d->Vector_0 == *vs);
                }
                match value_from_ffi_arg(&vs[i]) {
                    Ok(j) => {
                        out.push(j);
                    },
                    Err(e) => {
                        assert(fails_with(vs@[i as int], e));
                        assert(!convertible(vs@[i as int]));
                        assert(convertible(*d) ==> convertible(vs@[i as int]));
                        return Err(e);
                    },
                }
                i += 1;
            }
            Ok(JsonValue::Array(out))
        },
        DynValue::HashMap(ps) => {
            let mut out: Vec<(String, JsonValue)> = Vec::new();
            let mut i: usize = 0;
            while i < ps.len()
                invariant
                    *d == DynValue::HashMap(*ps),
                    i <= ps@.len(),
                    out@.len() == i,
                    forall|k: int|
                        0 <= k < i ==> key_text(#[trigger] ps@[k].0) == Some(out@[k].0@)
                            && converts(ps@[k].1, out@[k].1) && convertible(ps@[k].1),
                decreases ps@.len() - i,
            {
                let key = match &ps[i].0 {
                    DynValue::Str(s) => s.clone(),
                    DynValue::Symbol(s) => s.clone(),
                    _ => {
                        assert(key_text(ps@[i as int].0) is None);
                        assert(!convertible(*d));
                        return Err(ConversionError::NonStringKey);
                    },
                };
                proof {
                    assert(d->HashMap_0 == *ps);
                }
                match value_from_ffi_arg(&ps[i].1) {
                    Ok(j) => {
                        out.push((key, j));
                    },
                    Err(e) => {
                        assert(key_text(ps@[i as int].0) is Some);
                        assert(!convertible(ps@[i as int].1));
                        assert(!convertible(*d));
                        return Err(e);
                    },
                }
                i += 1;
            }
            Ok(JsonValue::Object(out))
        },
        DynValue::Symbol(_) => Err(ConversionError::UnsupportedVariant),
        DynValue::Opaque => Err(ConversionError::UnsupportedVariant),
    }
}

fn number_from_int(i: i64) -> (n: JsonNumber)
    ensures
        n == number_of_int(i as int),
{
    if i < 0 {
        JsonNumber::NegInt(i)
    } else {
        JsonNumber::PosInt(i as u64)
    }
}

/// Relies on std's `ToString` for `char`: the text of the one character.
#[verifier::external_body]
fn char_text(c: char) -> (r: String)
    ensures
        r@ == seq![c],
{
    c.to_string()
}


/// The bit pattern of the double nearest to `u`, ties to even, for
/// `u >= 2^63`: the 64 significant bits are rounded to 53, and the exponent
/// is 63, or 64 where rounding carries into a new bit.
pub open spec fn double_bits_of_large(u: u64) -> u64
    recommends
        u >= 0x8000_0000_0000_0000,
{
    let q = u as int / 2048;
    let r = u as int % 2048;
    let m = if r > 1024 || (r == 1024 && q % 2 == 1) {
        q + 1
    } else {
        q
    };
    if m == 0x20_0000_0000_0000 {
        0x43f0_0000_0000_0000
    } else {
        (0x43e0_0000_0000_0000 + (m - 0x10_0000_0000_0000)) as u64
    }
}

/// The host value of a JSON number: an integer where it fits the host's
/// 64-bit integers, else the nearest double.
pub open spec fn dyn_of_number(n: JsonNumber) -> DynValue {
    match n {
        JsonNumber::PosInt(u) => if u <= i64::MAX {
            DynValue::Int(u as i64)
        } else {
            DynValue::Num(double_bits_of_large(u))
        },
        JsonNumber::NegInt(i) => DynValue::Int(i),
        JsonNumber::Float(b) => DynValue::Num(b),
    }
}

/// `d` is the host value of `j`.
pub open spec fn lifts(j: JsonValue, d: DynValue) -> bool
    decreases j,
{
    match j {
        JsonValue::Null => d == DynValue::Void,
        JsonValue::Bool(b) => d == DynValue::Bool(b),
        JsonValue::Number(n) => d == dyn_of_number(n),
        JsonValue::String(s) => d is Str && d->Str_0@ == s@,
        JsonValue::Array(a) => d is Vector && d->Vector_0@.len() == a@.len() && forall|i: int|
            0 <= i < a@.len() ==> lifts(#[trigger] a@[i], d->Vector_0@[i]),
        JsonValue::Object(o) => d is HashMap && d->HashMap_0@.len() == o@.len() && forall|i: int|
            0 <= i < o@.len() ==> d->HashMap_0@[i].0 is Str && d->HashMap_0@[i].0->Str_0@ == (
            #[trigger] o@[i]).0@ && lifts(o@[i].1, d->HashMap_0@[i].1),
    }
}

fn double_from_large(u: u64) -> (b: u64)
    requires
        u >= 0x8000_0000_0000_0000,
    ensures
        b == double_bits_of_large(u),
{
    let q: u64 = u / 2048;
    let r: u64 = u % 2048;
    let m: u64 = if r > 1024 || (r == 1024 && q % 2 == 1) {
        q + 1
    } else {
        q
    };
    if m == 0x20_0000_0000_0000 {
        0x43f0_0000_0000_0000
    } else {
        0x43e0_0000_0000_0000 + (m - 0x10_0000_0000_0000)
    }
}

fn dyn_from_number(n: JsonNumber) -> (d: DynValue)
    ensures
        d == dyn_of_number(n),
{
    match n {
        JsonNumber::PosInt(u) => {
            if u <= i64::MAX as u64 {
                DynValue::Int(u as i64)
            } else {
                DynValue::Num(double_from_large(u))
            }
        },
        JsonNumber::NegInt(i) => DynValue::Int(i),
        JsonNumber::Float(b) => DynValue::Num(b),
    }
}

/// The host value of a JSON value. Every JSON value has one.
pub fn value_into_ffi_val(j: &JsonValue) -> (d: DynValue)
    ensures
        lifts(*j, d),
    decreases j,
{
    match j {
        JsonValue::Null => DynValue::Void,
        JsonValue::Bool(b) => DynValue::Bool(*b),
        JsonValue::Number(n) => dyn_from_number(*n),
        JsonValue::String(s) => DynValue::Str(s.clone()),
        JsonValue::Array(a) => {
            let mut out: Vec<DynValue> = Vec::new();
            let mut i: usize = 0;
            while i < a.len()
                invariant
                    *j == JsonValue::Array(*a),
                    i <= a@.len(),
                    out@.len() == i,
                    forall|k: int| 0 <= k < i ==> lifts(#[trigger] a@[k], out@[k]),
                decreases a@.len() - i,
            {
                assert(j->Array_0 == *a);
                out.push(value_into_ffi_val(&a[i]));
                i += 1;
            }
            DynValue::Vector(out)
        },
        JsonValue::Object(o) => {
            let mut out: Vec<(DynValue, DynValue)> = Vec::new();
            let mut i: usize = 0;
            while i < o.len()
                invariant
                    *j == JsonValue::Object(*o),
                    i <= o@.len(),
                    out@.len() == i,
                    forall|k: int|
                        0 <= k < i ==> (#[trigger] out@[k]).0 is Str && out@[k].0->Str_0@ == o@[k].0@
                            && lifts(o@[k].1, out@[k].1),
                decreases o@.len() - i,
            {
                assert(j->Object_0 == *o);
                let ks = o[i].0.clone();
                let v = value_into_ffi_val(&o[i].1);
                out.push((DynValue::Str(ks), v));
                i += 1;
            }
            let d = DynValue::HashMap(out);
            assert(lifts(*j, d));
            d
        },
    }
}


/// Every number in `j` is an integer of magnitude below 2^53, held as
/// serde_json holds it (a negative one as `NegInt`).
pub open spec fn safe_integers_only(j: JsonValue) -> bool
    decreases j,
{
    match j {
        JsonValue::Number(n) => match n {
            JsonNumber::PosInt(u) => u <= 0x1f_ffff_ffff_ffff,
            JsonNumber::NegInt(i) => -0x1f_ffff_ffff_ffff <= i < 0,
            JsonNumber::Float(_) => false,
        },
        JsonValue::Array(a) => forall|i: int|
            0 <= i < a@.len() ==> safe_integers_only(#[trigger] a@[i]),
        JsonValue::Object(o) => forall|i: int|
            0 <= i < o@.len() ==> safe_integers_only((#[trigger] o@[i]).1),
        _ => true,
    }
}

/// `a` and `b` are the same JSON value: same shape, same numbers, and
/// strings with the same characters.
pub open spec fn same_json(a: JsonValue, b: JsonValue) -> bool
    decreases a,
{
    match a {
        JsonValue::String(s) => b is String && b->String_0@ == s@,
        JsonValue::Array(x) => b is Array && b->Array_0@.len() == x@.len() && forall|i: int|
            0 <= i < x@.len() ==> same_json(#[trigger] x@[i], b->Array_0@[i]),
        JsonValue::Object(o) => b is Object && b->Object_0@.len() == o@.len() && forall|i: int|
            0 <= i < o@.len() ==> b->Object_0@[i].0@ == (#[trigger] o@[i]).0@ && same_json(
                o@[i].1,
                b->Object_0@[i].1,
            ),
        _ => a == b,
    }
}

/// A host value has one JSON form at most.
pub proof fn lemma_converts_unique(d: DynValue, a: JsonValue, b: JsonValue)
    requires
        converts(d, a),
        converts(d, b),
    ensures
        same_json(a, b),
    decreases d,
{
    match d {
        DynValue::Vector(vs) => {
            let x = a->Array_0;
            let y = b->Array_0;
            assert forall|i: int| 0 <= i < x@.len() implies same_json(#[trigger] x@[i], y@[i]) by {
                assert(d->Vector_0 == vs);
                lemma_converts_unique(vs@[i], x@[i], y@[i]);
            }
            assert(b is Array && y@.len() == x@.len());
        },
        DynValue::HashMap(ps) => {
            let x = a->Object_0;
            let y = b->Object_0;
            assert forall|i: int| 0 <= i < x@.len() implies y@[i].0@ == (#[trigger] x@[i]).0@
                && same_json(x@[i].1, y@[i].1) by {
                assert(d->HashMap_0 == ps);
                assert(decreases_to!(ps@[i] => ps@[i].1));
                assert(key_text(ps@[i].0) == Some(x@[i].0@));
                lemma_converts_unique(ps@[i].1, x@[i].1, y@[i].1);
            }
        },
        DynValue::Bytes(bs) => {
            let x = a->Array_0;
            let y = b->Array_0;
            assert forall|i: int| 0 <= i < x@.len() implies same_json(#[trigger] x@[i], y@[i]) by {
                assert(x@[i] == y@[i]);
                assert(x@[i] is Number);
            }
        },
        _ => {},
    }
}

/// A JSON value made of null, booleans, safe integers, strings, arrays and
/// objects converts back to itself from its host value, and to nothing
/// else.
pub proof fn lemma_round_trip(j: JsonValue, d: DynValue)
    requires
        safe_integers_only(j),
        lifts(j, d),
    ensures
        convertible(d),
        converts(d, j),
        forall|b: JsonValue| converts(d, b) ==> same_json(j, b),
{
    lemma_lift_converts_back(j, d);
    assert forall|b: JsonValue| converts(d, b) implies same_json(j, b) by {
        lemma_converts_unique(d, j, b);
    }
}

proof fn lemma_lift_converts_back(j: JsonValue, d: DynValue)
    requires
        safe_integers_only(j),
        lifts(j, d),
    ensures
        convertible(d),
        converts(d, j),
    decreases j,
{
    match j {
        JsonValue::Array(a) => {
            let vs = d->Vector_0;
            assert forall|i: int| 0 <= i < vs@.len() implies converts(#[trigger] vs@[i], a@[i])
                && convertible(vs@[i]) by {
                assert(j->Array_0 == a);
                lemma_lift_converts_back(a@[i], vs@[i]);
            }
        },
        JsonValue::Object(o) => {
            let ps = d->HashMap_0;
            assert forall|i: int| 0 <= i < ps@.len() implies key_text(#[trigger] ps@[i].0) == Some(
                o@[i].0@,
            ) && converts(ps@[i].1, o@[i].1) && convertible(ps@[i].1) by {
                assert(j->Object_0 == o);
                assert(decreases_to!(o@[i] => o@[i].1));
                lemma_lift_converts_back(o@[i].1, ps@[i].1);
            }
        },
        _ => {},
    }
}

/// No two entries of the object `j` share a key. A map whose keys have
/// distinct texts keeps that in its JSON form; where two keys have the same
/// text (a string and a symbol), both entries are kept in order, and a
/// reader that builds a key-unique map lets the later one win.
pub open spec fn object_keys_distinct(j: JsonValue) -> bool {
    j is Object && forall|a: int, b: int|
        0 <= a < b < j->Object_0@.len() ==> (#[trigger] j->Object_0@[a]).0@ != (
        #[trigger] j->Object_0@[b]).0@
}

/// A map whose keys have distinct texts converts to an object whose keys
/// are distinct.
pub proof fn lemma_distinct_keys_kept(ps: Vec<(DynValue, DynValue)>, j: JsonValue)
    requires
        converts(DynValue::HashMap(ps), j),
        forall|a: int, b: int|
            0 <= a < b < ps@.len() ==> key_text((#[trigger] ps@[a]).0) != key_text(
                (#[trigger] ps@[b]).0,
            ),
    ensures
        object_keys_distinct(j),
{
    let o = j->Object_0;
    assert forall|a: int, b: int| 0 <= a < b < o@.len() implies (#[trigger] o@[a]).0@ != (
    #[trigger] o@[b]).0@ by {
        assert(key_text(ps@[a].0) == Some(o@[a].0@));
        assert(key_text(ps@[b].0) == Some(o@[b].0@));
    }
}

/// A value that has a JSON form fails with no error.
pub proof fn lemma_convertible_has_no_error(d: DynValue, e: ConversionError)
    requires
        convertible(d),
    ensures
        !fails_with(d, e),
    decreases d,
{
    match d {
        DynValue::Vector(vs) => {
            if fails_with(d, e) {
                let w = choose|w: int|
                    0 <= w < vs@.len() && fails_with(#[trigger] vs@[w], e) && forall|k: int|
                        0 <= k < w ==> convertible(#[trigger] vs@[k]);
                assert(d->Vector_0 == vs);
                lemma_convertible_has_no_error(vs@[w], e);
            }
        },
        DynValue::HashMap(ps) => {
            if fails_with(d, e) {
                let w = choose|w: int|
                    0 <= w < ps@.len() && (forall|k: int|
                        0 <= k < w ==> key_text(#[trigger] ps@[k].0) is Some && convertible(
                            ps@[k].1,
                        )) && if key_text(#[trigger] ps@[w].0) is None {
                        e == ConversionError::NonStringKey
                    } else {
                        fails_with(ps@[w].1, e)
                    };
                assert(d->HashMap_0 == ps);
                assert(decreases_to!(ps@[w] => ps@[w].1));
                lemma_convertible_has_no_error(ps@[w].1, e);
            }
        },
        _ => {},
    }
}

proof fn first_bad_key(ps: Seq<(DynValue, DynValue)>, i: int) -> (f: int)
    requires
        0 <= i < ps.len(),
        key_text(ps[i].0) is None,
    ensures
        0 <= f <= i,
        key_text(ps[f].0) is None,
        forall|k: int| 0 <= k < f ==> key_text(#[trigger] ps[k].0) is Some,
    decreases i,
{
    if exists|k: int| 0 <= k < i && key_text(#[trigger] ps[k].0) is None {
        let k = choose|k: int| 0 <= k < i && key_text(#[trigger] ps[k].0) is None;
        first_bad_key(ps, k)
    } else {
        i
    }
}

/// A map with a key that is neither a string nor a symbol has no JSON form;
/// where each of its values has one, the conversion fails with
/// `NonStringKey` and no other error.
pub proof fn lemma_non_string_key(ps: Vec<(DynValue, DynValue)>, i: int)
    requires
        0 <= i < ps@.len(),
        key_text(ps@[i].0) is None,
        forall|k: int| 0 <= k < ps@.len() ==> convertible(#[trigger] ps@[k].1),
    ensures
        !convertible(DynValue::HashMap(ps)),
        forall|e: ConversionError|
            fails_with(DynValue::HashMap(ps), e) <==> e == ConversionError::NonStringKey,
{
    let d = DynValue::HashMap(ps);
    let f = first_bad_key(ps@, i);
    assert(ps@[f] == ps@[f]);
    assert(fails_with(d, ConversionError::NonStringKey));
    assert forall|e: ConversionError| fails_with(d, e) implies e
        == ConversionError::NonStringKey by {
        let w = choose|w: int|
            0 <= w < ps@.len() && (forall|k: int|
                0 <= k < w ==> key_text(#[trigger] ps@[k].0) is Some && convertible(ps@[k].1))
                && if key_text(#[trigger] ps@[w].0) is None {
                e == ConversionError::NonStringKey
            } else {
                fails_with(ps@[w].1, e)
            };
        if key_text(ps@[w].0) is Some {
            lemma_convertible_has_no_error(ps@[w].1, e);
        }
    }
}

} // verus!
