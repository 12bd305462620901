//! The library's own representation of one line of JSON input, and the
//! trusted bridge that produces it from JSON text.

use vstd::prelude::*;

verus! {

/// serde_json's tree of parsed JSON, opaque to contracts; the library reads
/// it only through [`parse_json_line`].
#[verifier::external_type_specification]
#[verifier::external_body]
pub struct ExValue(serde_json::Value);

/// A JSON value. Numbers that fit a signed 64-bit integer are `Int`; every
/// other number keeps its decimal rendering as `Real` text.
#[derive(Debug)]
pub enum Json {
    Null,
    Bool(bool),
    Int(i64),
    Real(String),
    Text(String),
    Array(Vec<Json>),
    Object(Vec<(String, Json)>),
}

/// The mathematical shape of a JSON value, used by contracts.
pub enum JsonV {
    Null,
    Bool(bool),
    Int(i64),
    Real(Seq<char>),
    Text(Seq<char>),
    Arr(Seq<JsonV>),
    Obj(Seq<(Seq<char>, JsonV)>),
}

/// The shape of a `Json` value.
pub open spec fn json_view(j: Json) -> JsonV
    decreases j,
{
    match j {
        Json::Null => JsonV::Null,
        Json::Bool(b) => JsonV::Bool(b),
        Json::Int(i) => JsonV::Int(i),
        Json::Real(s) => JsonV::Real(s@),
        Json::Text(s) => JsonV::Text(s@),
        Json::Array(a) => JsonV::Arr(json_arr_view(a@)),
        Json::Object(o) => JsonV::Obj(json_obj_view(o@)),
    }
}

/// The shapes of the elements of a JSON array.
pub open spec fn json_arr_view(s: Seq<Json>) -> Seq<JsonV>
    decreases s,
{
    if s.len() == 0 {
        Seq::empty()
    } else {
        seq![json_view(s[0])] + json_arr_view(s.drop_first())
    }
}

/// The shapes of the entries of a JSON object.
pub open spec fn json_obj_view(s: Seq<(String, Json)>) -> Seq<(Seq<char>, JsonV)>
    decreases s,
{
    if s.len() == 0 {
        Seq::empty()
    } else {
        seq![(s[0].0@, json_view(s[0].1))] + json_obj_view(s.drop_first())
    }
}

pub proof fn lemma_json_arr_view(s: Seq<Json>)
    ensures
        json_arr_view(s).len() == s.len(),
        forall|i: int| 0 <= i < s.len() ==> json_arr_view(s)[i] == json_view(#[trigger] s[i]),
    decreases s,
{
    if s.len() > 0 {
        lemma_json_arr_view(s.drop_first());
        assert forall|i: int| 0 <= i < s.len() implies json_arr_view(s)[i] == json_view(
            #[trigger] s[i],
        ) by {
            if i > 0 {
                assert(s.drop_first()[i - 1] == s[i]);
            }
        }
    }
}

pub proof fn lemma_json_obj_view(s: Seq<(String, Json)>)
    ensures
        json_obj_view(s).len() == s.len(),
        forall|i: int| 0 <= i < s.len() ==> json_obj_view(s)[i] == ((#[trigger] s[i]).0@, json_view(
            s[i].1,
        )),
    decreases s,
{
    if s.len() > 0 {
        lemma_json_obj_view(s.drop_first());
        assert forall|i: int| 0 <= i < s.len() implies json_obj_view(s)[i] == ((#[trigger] s[i]).0@,
            json_view(s[i].1)) by {
            if i > 0 {
                assert(s.drop_first()[i - 1] == s[i]);
            }
        }
    }
}

/// First entry of `es` whose key is `key`, if any.
pub open spec fn spec_get_entries(es: Seq<(Seq<char>, JsonV)>, key: Seq<char>) -> Option<JsonV>
    decreases es.len(),
{
    if es.len() == 0 {
        None
    } else if es[0].0 == key {
        Some(es[0].1)
    } else {
        spec_get_entries(es.drop_first(), key)
    }
}

/// Field `key` of `j`, when `j` is an object that has it.
pub open spec fn spec_get(j: JsonV, key: Seq<char>) -> Option<JsonV> {
    match j {
        JsonV::Obj(es) => spec_get_entries(es, key),
        _ => None,
    }
}

proof fn lemma_get_entries_skip(es: Seq<(Seq<char>, JsonV)>, key: Seq<char>, k: int)
    requires
        0 <= k <= es.len(),
        forall|i: int| 0 <= i < k ==> (#[trigger] es[i]).0 != key,
    ensures
        spec_get_entries(es, key) == spec_get_entries(es.skip(k), key),
    decreases k,
{
    if k > 0 {
        assert(es.drop_first().skip(k - 1) =~= es.skip(k));
        lemma_get_entries_skip(es.drop_first(), key, k - 1);
    } else {
        assert(es.skip(0) =~= es);
    }
}

impl Json {
    /// The entries of this value when it is an object, as contracts see them.
    pub open spec fn entries_view(&self) -> Seq<(Seq<char>, JsonV)> {
        match *self {
            Json::Object(o) => json_obj_view(o@),
            _ => Seq::empty(),
        }
    }

    /// Looks up a top-level field by name; `None` when this value is not an
    /// object or lacks the field.
    pub fn get<'a>(&'a self, key: &str) -> (r: Option<&'a Json>)
        ensures
            match r {
                Some(v) => spec_get(json_view(*self), key@) == Some(json_view(*v)),
                None => spec_get(json_view(*self), key@) is None,
            },
    {
        match self {
            Json::Object(entries) => {
                let ghost ev = self.entries_view();
                proof {
                    lemma_json_obj_view(entries@);
                }
                let mut k: usize = 0;
                while k < entries.len()
                    invariant
                        *self matches Json::Object(e2) && e2 == entries,
                        ev == self.entries_view(),
                        k <= entries@.len(),
                        ev.len() == entries@.len(),
                        forall|i: int| 0 <= i < entries@.len() ==> (#[trigger] ev[i])
                            == (entries@[i].0@, json_view(entries@[i].1)),
                        forall|i: int| 0 <= i < k ==> (#[trigger] ev[i]).0 != key@,
                    decreases entries@.len() - k,
                {
                    if entries[k].0.as_str().eq(key) {
                        proof {
                            lemma_get_entries_skip(ev, key@, k as int);
                            assert(ev.skip(k as int)[0] == ev[k as int]);
                        }
                        return Some(&entries[k].1);
                    }
                    k += 1;
                }
                proof {
                    lemma_get_entries_skip(ev, key@, k as int);
                    assert(ev.skip(k as int) =~= Seq::empty());
                }
                None
            },
            _ => None,
        }
    }
}

/// What parsing a line of JSON text yields: `None` on malformed text, or the
/// shape of the parsed value. Uninterpreted; `parse_json_line` is the one way
/// to learn it.
pub uninterp spec fn spec_parse_json(s: Seq<char>) -> Option<JsonV>;

/// The canonical text serde_json renders for a JSON shape.
pub uninterp spec fn spec_json_text(v: JsonV) -> Seq<char>;

/// Relies on serde_json::from_str for `serde_json::Value`: parsing JSON text
/// is a function of the text alone, and `value_to_json` maps the resulting
/// tree one variant at a time onto [`Json`].
#[verifier::external_body]
pub fn parse_json_line(line: &str) -> (r: Option<Json>)
    ensures
        match r {
            Some(j) => spec_parse_json(line@) == Some(json_view(j)),
            None => spec_parse_json(line@) is None,
        },
{
    match serde_json::from_str::<serde_json::Value>(line) {
        Ok(v) => Some(value_to_json(v)),
        Err(_) => None,
    }
}

/// Carries serde_json's tree over into [`Json`], one variant arm each,
/// moving fields; numbers that `as_i64` accepts become `Int`, the rest keep
/// serde_json's decimal rendering.
#[verifier::external_body]
fn value_to_json(v: serde_json::Value) -> Json {
    match v {
        serde_json::Value::Null => Json::Null,
        serde_json::Value::Bool(b) => Json::Bool(b),
        serde_json::Value::Number(n) => match n.as_i64() {
            Some(i) => Json::Int(i),
            None => Json::Real(n.to_string()),
        },
        serde_json::Value::String(s) => Json::Text(s),
        serde_json::Value::Array(a) => Json::Array(a.into_iter().map(value_to_json).collect()),
        serde_json::Value::Object(m) => Json::Object(
            m.into_iter().map(|(k, x)| (k, value_to_json(x))).collect(),
        ),
    }
}

/// Relies on serde_json::to_string through `Value`'s `Display`: serialization
/// is a function of the value alone. `json_to_value` is `value_to_json`'s
/// inverse, one variant arm each.
#[verifier::external_body]
pub fn serialize_json(j: &Json) -> (r: String)
    ensures
        r@ == spec_json_text(json_view(*j)),
{
    json_to_value(j).to_string()
}

/// Carries a [`Json`] value back into serde_json's tree, one variant arm
/// each; `Real` text becomes the number it renders.
#[verifier::external_body]
fn json_to_value(j: &Json) -> serde_json::Value {
    match j {
        Json::Null => serde_json::Value::Null,
        Json::Bool(b) => serde_json::Value::Bool(*b),
        Json::Int(i) => serde_json::Value::Number((*i).into()),
        Json::Real(s) => match serde_json::from_str::<serde_json::Number>(s) {
            Ok(n) => serde_json::Value::Number(n),
            Err(_) => serde_json::Value::Null,
        },
        Json::Text(s) => serde_json::Value::String(s.clone()),
        Json::Array(a) => serde_json::Value::Array(a.iter().map(json_to_value).collect()),
        Json::Object(o) => serde_json::Value::Object(
            o.iter().map(|(k, x)| (k.clone(), json_to_value(x))).collect(),
        ),
    }
}

} // verus!
