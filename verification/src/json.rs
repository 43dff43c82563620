//! JSON values as plain data: the values that parameters, variables and
//! trait properties carry.
use vstd::prelude::*;
use serde_json::Value;
use crate::strmap::{DeepCopy, Equiv};
use crate::strings::str_eq;

verus! {

/// A JSON number: a non-negative integer, a negative integer, or any other
/// number, held as its decimal text.
#[derive(Clone, Debug, PartialEq)]
pub enum JsonNumber {
    PosInt(u64),
    NegInt(i64),
    Float(String),
}

/// A JSON value.
///
/// An object holds its members in order: a parsed object in the order of its
/// keys, an object the library builds in the order it writes them.
#[derive(Debug, PartialEq)]
pub enum JsonValue {
    Null,
    Bool(bool),
    Number(JsonNumber),
    String(String),
    Array(Vec<JsonValue>),
    Object(Vec<(String, JsonValue)>),
}

/// The mathematical form of a JSON number.
pub enum NumberModel {
    PosInt(u64),
    NegInt(i64),
    Float(Seq<char>),
}

/// The mathematical form of a JSON value.
pub enum Json {
    Null,
    Bool(bool),
    Number(NumberModel),
    String(Seq<char>),
    Array(Seq<Json>),
    Object(Seq<(Seq<char>, Json)>),
}

pub open spec fn number_model(n: JsonNumber) -> NumberModel {
    match n {
        JsonNumber::PosInt(u) => NumberModel::PosInt(u),
        JsonNumber::NegInt(i) => NumberModel::NegInt(i),
        JsonNumber::Float(s) => NumberModel::Float(s@),
    }
}

pub open spec fn json_model(v: JsonValue) -> Json
    decreases v,
{
    match v {
        JsonValue::Null => Json::Null,
        JsonValue::Bool(b) => Json::Bool(b),
        JsonValue::Number(n) => Json::Number(number_model(n)),
        JsonValue::String(s) => Json::String(s@),
        JsonValue::Array(a) => Json::Array(
            Seq::new(
                a@.len(),
                |i: int|
                    if 0 <= i < a@.len() {
                        json_model(a@[i])
                    } else {
                        Json::Null
                    },
            ),
        ),
        JsonValue::Object(o) => Json::Object(
            Seq::new(
                o@.len(),
                |i: int|
                    if 0 <= i < o@.len() {
                        (o@[i].0@, json_model(o@[i].1))
                    } else {
                        (Seq::empty(), Json::Null)
                    },
            ),
        ),
    }
}

impl View for JsonValue {
    type V = Json;

    open spec fn view(&self) -> Json {
        json_model(*self)
    }
}

/// An array value is the sequence of the values it holds.
pub proof fn lemma_array_model(a: Vec<JsonValue>)
    ensures
        JsonValue::Array(a)@ == Json::Array(a@.map_values(|e: JsonValue| e@)),
{
    match JsonValue::Array(a)@ {
        Json::Array(s) => {
            assert(s =~= a@.map_values(|e: JsonValue| e@));
        },
        _ => {},
    }
}

/// An object value is the sequence of its members.
pub proof fn lemma_object_model(o: Vec<(String, JsonValue)>)
    ensures
        JsonValue::Object(o)@ == Json::Object(o@.map_values(|e: (String, JsonValue)| (e.0@, e.1@))),
{
    match JsonValue::Object(o)@ {
        Json::Object(s) => {
            assert(s =~= o@.map_values(|e: (String, JsonValue)| (e.0@, e.1@)));
        },
        _ => {},
    }
}

/// The integer a number stands for, where it fits in an `i64`.
pub open spec fn spec_as_i64(v: Json) -> Option<i64> {
    match v {
        Json::Number(NumberModel::PosInt(u)) => if u <= i64::MAX {
            Some(u as i64)
        } else {
            None
        },
        Json::Number(NumberModel::NegInt(i)) => Some(i),
        _ => None,
    }
}

/// The first member of an object under a key.
pub open spec fn member(entries: Seq<(Seq<char>, Json)>, k: Seq<char>) -> Option<Json>
    decreases entries.len(),
{
    if entries.len() == 0 {
        None
    } else if entries[0].0 == k {
        Some(entries[0].1)
    } else {
        member(entries.subrange(1, entries.len() as int), k)
    }
}

/// The member of an object value under a key; `None` for other values.
pub open spec fn spec_get(v: Json, k: Seq<char>) -> Option<Json> {
    match v {
        Json::Object(entries) => member(entries, k),
        _ => None,
    }
}

/// The text of a string value.
pub open spec fn spec_as_str(v: Json) -> Option<Seq<char>> {
    match v {
        Json::String(s) => Some(s),
        _ => None,
    }
}

/// The JSON text that serde_json writes for a value.
pub uninterp spec fn json_text(v: Json) -> Seq<char>;

#[verifier::external_type_specification]
#[verifier::external_body]
pub struct ExSerdeValue(serde_json::Value);

/// Builds the serde_json value that a value stands for.
#[verifier::external_body]
fn to_serde(v: &JsonValue) -> Value {
    match v {
        JsonValue::Null => Value::Null,
        JsonValue::Bool(b) => Value::Bool(*b),
        JsonValue::Number(JsonNumber::PosInt(u)) => Value::from(*u),
        JsonValue::Number(JsonNumber::NegInt(i)) => Value::from(*i),
        JsonValue::Number(JsonNumber::Float(t)) => serde_json::from_str(t).unwrap_or(Value::Null),
        JsonValue::String(s) => Value::String(s.clone()),
        JsonValue::Array(a) => Value::Array(a.iter().map(to_serde).collect()),
        JsonValue::Object(o) => Value::Object(o.iter().map(|(k, x)| (k.clone(), to_serde(x))).collect()),
    }
}

/// Writes a value as JSON text with `serde_json::to_string`.
///
/// The text is named `json_text` of the value: serde_json writes the same text
/// for the same value, the members of an object in the order the value holds
/// them (with `preserve_order`, a map of serde keeps the order it is built
/// in). Writing a `serde_json::Value` does not fail.
#[verifier::external_body]
fn serde_to_string(v: &JsonValue) -> (s: String)
    ensures
        s@ == json_text(v@),
{
    serde_json::to_string(&to_serde(v)).unwrap_or_default()
}

proof fn lemma_member_index(entries: Seq<(Seq<char>, Json)>, k: Seq<char>, i: int)
    requires
        0 <= i < entries.len(),
        entries[i].0 == k,
        forall|j: int| 0 <= j < i ==> entries[j].0 != k,
    ensures
        member(entries, k) == Some(entries[i].1),
    decreases i,
{
    if i > 0 {
        let rest = entries.subrange(1, entries.len() as int);
        assert forall|j: int| 0 <= j < i - 1 implies rest[j].0 != k by {
            assert(rest[j] == entries[j + 1]);
        }
        lemma_member_index(rest, k, i - 1);
    }
}

proof fn lemma_member_absent(entries: Seq<(Seq<char>, Json)>, k: Seq<char>)
    requires
        forall|j: int| 0 <= j < entries.len() ==> entries[j].0 != k,
    ensures
        member(entries, k) is None,
    decreases entries.len(),
{
    if entries.len() > 0 {
        let rest = entries.subrange(1, entries.len() as int);
        assert forall|j: int| 0 <= j < rest.len() implies rest[j].0 != k by {
            assert(rest[j] == entries[j + 1]);
        }
        lemma_member_absent(rest, k);
    }
}

impl JsonValue {
    /// An integer value, as serde_json writes it from an `i64`.
    /// An object value with the given members, in the given order.
    pub fn object(entries: Vec<(String, JsonValue)>) -> (v: JsonValue)
        ensures
            v@ == Json::Object(entries@.map_values(|e: (String, JsonValue)| (e.0@, e.1@))),
    {
        proof {
            lemma_object_model(entries);
        }
        JsonValue::Object(entries)
    }

    /// An array value holding the given values.
    pub fn array(items: Vec<JsonValue>) -> (v: JsonValue)
        ensures
            v@ == Json::Array(items@.map_values(|e: JsonValue| e@)),
    {
        proof {
            lemma_array_model(items);
        }
        JsonValue::Array(items)
    }

    pub fn from_i64(n: i64) -> (v: JsonValue)
        ensures
            spec_as_i64(v@) == Some(n),
    {
        if n < 0 {
            JsonValue::Number(JsonNumber::NegInt(n))
        } else {
            JsonValue::Number(JsonNumber::PosInt(n as u64))
        }
    }

    /// A string value.
    pub fn from_str(s: &str) -> (v: JsonValue)
        ensures
            v@ == Json::String(s@),
    {
        JsonValue::String(s.to_string())
    }

    pub fn is_null(&self) -> (b: bool)
        ensures
            b == (self@ is Null),
    {
        match self {
            JsonValue::Null => true,
            _ => false,
        }
    }

    pub fn as_bool(&self) -> (r: Option<bool>)
        ensures
            r == (match self@ {
                Json::Bool(b) => Some(b),
                _ => None::<bool>,
            }),
    {
        match self {
            JsonValue::Bool(b) => Some(*b),
            _ => None,
        }
    }

    /// Whether the value is a number (one that an `f64` can hold).
    pub fn is_number(&self) -> (b: bool)
        ensures
            b == (self@ is Number),
    {
        match self {
            JsonValue::Number(_) => true,
            _ => false,
        }
    }

    pub fn as_str(&self) -> (r: Option<&String>)
        ensures
            match r {
                Some(s) => spec_as_str(self@) == Some(s@),
                None => spec_as_str(self@) is None,
            },
    {
        match self {
            JsonValue::String(s) => Some(s),
            _ => None,
        }
    }

    pub fn as_i64(&self) -> (r: Option<i64>)
        ensures
            r == spec_as_i64(self@),
    {
        match self {
            JsonValue::Number(JsonNumber::PosInt(u)) => if *u <= 9223372036854775807u64 {
                Some(*u as i64)
            } else {
                None
            },
            JsonValue::Number(JsonNumber::NegInt(i)) => Some(*i),
            _ => None,
        }
    }

    pub fn as_array(&self) -> (r: Option<&Vec<JsonValue>>)
        ensures
            match r {
                Some(a) => self@ == Json::Array(a@.map_values(|x: JsonValue| x@)),
                None => !(self@ is Array),
            },
    {
        match self {
            JsonValue::Array(a) => {
                proof {
                    lemma_array_model(*a);
                }
                Some(a)
            },
            _ => None,
        }
    }

    /// The member of an object under a key.
    pub fn get(&self, k: &str) -> (r: Option<&JsonValue>)
        ensures
            match r {
                Some(x) => spec_get(self@, k@) == Some(x@),
                None => spec_get(self@, k@) is None,
            },
    {
        match self {
            JsonValue::Object(o) => {
                let ghost entries = o@.map_values(|e: (String, JsonValue)| (e.0@, e.1@));
                proof {
                    lemma_object_model(*o);
                }
                let n = o.len();
                let mut i: usize = 0;
                while i < n
                    invariant
                        n == o@.len(),
                        entries == o@.map_values(|e: (String, JsonValue)| (e.0@, e.1@)),
                        self@ == Json::Object(entries),
                        entries.len() == n,
                        forall|j: int| 0 <= j < n ==> #[trigger] entries[j] == (o@[j].0@, o@[j].1@),
                        forall|j: int| 0 <= j < i ==> entries[j].0 != k@,
                    decreases n - i,
                {
                    if str_eq(o[i].0.as_str(), k) {
                        proof {
                            lemma_member_index(entries, k@, i as int);
                        }
                        return Some(&o[i].1);
                    }
                    i = i + 1;
                }
                proof {
                    lemma_member_absent(entries, k@);
                }
                None
            },
            _ => None,
        }
    }

    /// The JSON text of the value, as serde_json writes it.
    pub fn to_json_string(&self) -> (s: String)
        ensures
            s@ == json_text(self@),
    {
        serde_to_string(self)
    }
}

fn copy_number(n: &JsonNumber) -> (r: JsonNumber)
    ensures
        number_model(r) == number_model(*n),
{
    match n {
        JsonNumber::PosInt(u) => JsonNumber::PosInt(*u),
        JsonNumber::NegInt(i) => JsonNumber::NegInt(*i),
        JsonNumber::Float(t) => JsonNumber::Float(t.clone()),
    }
}

#[verifier::loop_isolation(false)]
fn copy_json(v: &JsonValue) -> (r: JsonValue)
    ensures
        r@ == v@,
    decreases v,
{
    match v {
        JsonValue::Null => JsonValue::Null,
        JsonValue::Bool(b) => JsonValue::Bool(*b),
        JsonValue::Number(n) => JsonValue::Number(copy_number(n)),
        JsonValue::String(s) => JsonValue::String(s.clone()),
        JsonValue::Array(a) => {
            let mut out: Vec<JsonValue> = Vec::new();
            let n = a.len();
            let mut i: usize = 0;
            while i < n
                invariant
                    n == a@.len(),
                    i <= n,
                    out@.len() == i,
                    forall|j: int| 0 <= j < i ==> #[trigger] out@[j]@ == a@[j]@,
                decreases n - i,
            {
                let x = copy_json(&a[i]);
                out.push(x);
                i = i + 1;
            }
            proof {
                lemma_array_model(out);
                lemma_array_model(*a);
                assert(out@.map_values(|e: JsonValue| e@) =~= a@.map_values(|e: JsonValue| e@));
            }
            JsonValue::Array(out)
        },
        JsonValue::Object(o) => {
            let mut out: Vec<(String, JsonValue)> = Vec::new();
            let n = o.len();
            let mut i: usize = 0;
            while i < n
                invariant
                    n == o@.len(),
                    i <= n,
                    out@.len() == i,
                    forall|j: int| 0 <= j < i ==> #[trigger] out@[j].0@ == o@[j].0@ && out@[j].1@ == o@[j].1@,
                decreases n - i,
            {
                let k = o[i].0.clone();
                let x = copy_json(&o[i].1);
                out.push((k, x));
                i = i + 1;
            }
            proof {
                lemma_object_model(out);
                lemma_object_model(*o);
                assert(out@.map_values(|e: (String, JsonValue)| (e.0@, e.1@)) =~= o@.map_values(|e: (String, JsonValue)| (e.0@, e.1@)));
            }
            JsonValue::Object(out)
        },
    }
}

impl Clone for JsonValue {
    fn clone(&self) -> (r: Self)
        ensures
            r@ == self@,
    {
        copy_json(self)
    }
}

impl DeepCopy for JsonValue {
    fn deep_copy(&self) -> (r: Self) {
        copy_json(self)
    }
}

/// The number a model stands for, in its normal form. A float is held as
/// the text serde_json writes for it, the shortest that reads back, so two
/// floats are the same number exactly when their texts are equal, but for
/// the two zeros: `-0.0` is the number `0.0`.
pub open spec fn number_normal(n: NumberModel) -> NumberModel {
    match n {
        NumberModel::Float(s) => if s == "-0.0"@ {
            NumberModel::Float("0.0"@)
        } else {
            n
        },
        _ => n,
    }
}

/// The value a JSON model stands for, in its normal form: every number in
/// its normal form.
pub open spec fn json_normal(v: Json) -> Json
    decreases v,
{
    match v {
        Json::Number(n) => Json::Number(number_normal(n)),
        Json::Array(a) => Json::Array(
            Seq::new(
                a.len(),
                |i: int|
                    if 0 <= i < a.len() {
                        json_normal(a[i])
                    } else {
                        Json::Null
                    },
            ),
        ),
        Json::Object(o) => Json::Object(
            Seq::new(
                o.len(),
                |i: int|
                    if 0 <= i < o.len() {
                        (o[i].0, json_normal(o[i].1))
                    } else {
                        (Seq::empty(), Json::Null)
                    },
            ),
        ),
        _ => v,
    }
}

fn number_equivalent(a: &JsonNumber, b: &JsonNumber) -> (r: bool)
    ensures
        r == (number_normal(number_model(*a)) == number_normal(number_model(*b))),
{
    match (a, b) {
        (JsonNumber::PosInt(x), JsonNumber::PosInt(y)) => *x == *y,
        (JsonNumber::NegInt(x), JsonNumber::NegInt(y)) => *x == *y,
        (JsonNumber::Float(x), JsonNumber::Float(y)) => {
            let zx = str_eq(x.as_str(), "-0.0") || str_eq(x.as_str(), "0.0");
            let zy = str_eq(y.as_str(), "-0.0") || str_eq(y.as_str(), "0.0");
            proof {
                reveal_strlit("-0.0");
                reveal_strlit("0.0");
            }
            if zx && zy {
                true
            } else if zx || zy {
                false
            } else {
                str_eq(x.as_str(), y.as_str())
            }
        },
        _ => false,
    }
}

/// Whether two values are the same JSON value, numbers compared as numbers.
#[verifier::loop_isolation(false)]
pub fn json_equivalent(a: &JsonValue, b: &JsonValue) -> (r: bool)
    ensures
        r == (json_normal(a@) == json_normal(b@)),
    decreases a,
{
    match (a, b) {
        (JsonValue::Null, JsonValue::Null) => true,
        (JsonValue::Bool(x), JsonValue::Bool(y)) => *x == *y,
        (JsonValue::Number(x), JsonValue::Number(y)) => number_equivalent(x, y),
        (JsonValue::String(x), JsonValue::String(y)) => str_eq(x.as_str(), y.as_str()),
        (JsonValue::Array(x), JsonValue::Array(y)) => {
            let ghost sx = x@.map_values(|e: JsonValue| e@);
            let ghost sy = y@.map_values(|e: JsonValue| e@);
            proof {
                lemma_array_model(*x);
                lemma_array_model(*y);
            }
            if x.len() != y.len() {
                assert(json_normal(a@)->Array_0.len() != json_normal(b@)->Array_0.len());
                return false;
            }
            let n = x.len();
            let mut i: usize = 0;
            while i < n
                invariant
                    n == x@.len(),
                    n == y@.len(),
                    sx.len() == n,
                    sy.len() == n,
                    forall|j: int| 0 <= j < n ==> #[trigger] sx[j] == x@[j]@,
                    forall|j: int| 0 <= j < n ==> #[trigger] sy[j] == y@[j]@,
                    forall|j: int| 0 <= j < i ==> json_normal(sx[j]) == json_normal(sy[j]),
                decreases n - i,
            {
                if !json_equivalent(&x[i], &y[i]) {
                    assert(json_normal(a@)->Array_0[i as int] != json_normal(b@)->Array_0[i as int]);
                    return false;
                }
                i = i + 1;
            }
            assert(json_normal(a@)->Array_0 =~= json_normal(b@)->Array_0);
            true
        },
        (JsonValue::Object(x), JsonValue::Object(y)) => {
            let ghost sx = x@.map_values(|e: (String, JsonValue)| (e.0@, e.1@));
            let ghost sy = y@.map_values(|e: (String, JsonValue)| (e.0@, e.1@));
            proof {
                lemma_object_model(*x);
                lemma_object_model(*y);
            }
            if x.len() != y.len() {
                assert(json_normal(a@)->Object_0.len() != json_normal(b@)->Object_0.len());
                return false;
            }
            let n = x.len();
            let mut i: usize = 0;
            while i < n
                invariant
                    n == x@.len(),
                    n == y@.len(),
                    sx.len() == n,
                    sy.len() == n,
                    forall|j: int| 0 <= j < n ==> #[trigger] sx[j] == (x@[j].0@, x@[j].1@),
                    forall|j: int| 0 <= j < n ==> #[trigger] sy[j] == (y@[j].0@, y@[j].1@),
                    forall|j: int| 0 <= j < i ==> sx[j].0 == sy[j].0 && json_normal(sx[j].1) == json_normal(sy[j].1),
                decreases n - i,
            {
                if !str_eq(x[i].0.as_str(), y[i].0.as_str()) || !json_equivalent(&x[i].1, &y[i].1) {
                    assert(json_normal(a@)->Object_0[i as int] != json_normal(b@)->Object_0[i as int]);
                    return false;
                }
                i = i + 1;
            }
            assert(json_normal(a@)->Object_0 =~= json_normal(b@)->Object_0);
            true
        },
        _ => false,
    }
}

impl Equiv for JsonValue {
    open spec fn normal(v: Json) -> Json {
        json_normal(v)
    }

    fn equivalent(&self, other: &Self) -> (r: bool) {
        json_equivalent(self, other)
    }
}

} // verus!
