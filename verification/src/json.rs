//! An untyped JSON document model.
//!
//! Every response body of the service is JSON, and every request body the
//! library builds is JSON. The executable tree is [`Json`]; its mathematical
//! counterpart is [`JVal`], which the contracts of the decoders and of the
//! endpoint descriptors speak about. Reading and writing JSON text is
//! delegated to `serde_json` behind the trusted functions at the bottom of
//! this file; everything that inspects or builds a tree is verified.

use vstd::prelude::*;

verus! {

/// An executable JSON value.
///
/// Numbers are integers only: the service's wire format uses timestamps,
/// counters and flags, never fractions. A fractional number in a response
/// is mapped to [`Json::Null`] by the parser, so a decoder that expects an
/// integer rejects it, as it rejects any other unexpected shape.
/// Integers above `i64::MAX` are carried by [`Json::UInt`].
#[derive(Debug)]
pub enum Json {
    Null,
    Bool(bool),
    Int(i64),
    UInt(u64),
    Str(String),
    Arr(Vec<Json>),
    Obj(Vec<(String, Json)>),
}

/// The mathematical form of a JSON value: what contracts speak about.
///
/// Both integer variants of [`Json`] map onto [`JVal::Int`].
pub enum JVal {
    Null,
    Bool(bool),
    Int(int),
    Str(Seq<char>),
    Arr(Seq<JVal>),
    Obj(Seq<(Seq<char>, JVal)>),
}

impl Json {
    /// The mathematical value of a JSON tree.
    pub open spec fn jval(self) -> JVal
        decreases self,
    {
        match self {
            Json::Null => JVal::Null,
            Json::Bool(b) => JVal::Bool(b),
            Json::Int(i) => JVal::Int(i as int),
            Json::UInt(u) => JVal::Int(u as int),
            Json::Str(s) => JVal::Str(s@),
            Json::Arr(items) => JVal::Arr(Json::jvals(items@)),
            Json::Obj(fields) => JVal::Obj(Json::jfields(fields@)),
        }
    }

    /// The mathematical values of a sequence of JSON trees.
    pub open spec fn jvals(items: Seq<Json>) -> Seq<JVal>
        decreases items,
    {
        if items.len() == 0 {
            Seq::empty()
        } else {
            seq![items[0].jval()] + Json::jvals(items.drop_first())
        }
    }

    /// The mathematical values of a sequence of JSON object fields.
    pub open spec fn jfields(fields: Seq<(String, Json)>) -> Seq<(Seq<char>, JVal)>
        decreases fields,
    {
        if fields.len() == 0 {
            Seq::empty()
        } else {
            seq![(fields[0].0@, fields[0].1.jval())] + Json::jfields(fields.drop_first())
        }
    }
}

impl View for Json {
    type V = JVal;

    open spec fn view(&self) -> JVal {
        self.jval()
    }
}

/// The values of a sequence of JSON trees, element by element.
pub broadcast proof fn lemma_jvals(items: Seq<Json>)
    ensures
        (#[trigger] Json::jvals(items)).len() == items.len(),
        forall|i: int| 0 <= i < items.len() ==> Json::jvals(items)[i] == items[i]@,
    decreases items.len(),
{
    if items.len() > 0 {
        lemma_jvals(items.drop_first());
    }
}

/// The values of a sequence of JSON object fields, element by element.
pub broadcast proof fn lemma_jfields(fields: Seq<(String, Json)>)
    ensures
        (#[trigger] Json::jfields(fields)).len() == fields.len(),
        forall|i: int|
            0 <= i < fields.len() ==> Json::jfields(fields)[i] == (fields[i].0@, fields[i].1@),
    decreases fields.len(),
{
    if fields.len() > 0 {
        lemma_jfields(fields.drop_first());
    }
}

/// The value of the first field named `key`, if any.
pub open spec fn spec_lookup(fields: Seq<(Seq<char>, JVal)>, key: Seq<char>) -> Option<JVal>
    decreases fields.len(),
{
    if fields.len() == 0 {
        None
    } else if fields[0].0 == key {
        Some(fields[0].1)
    } else {
        spec_lookup(fields.drop_first(), key)
    }
}

/// The field named `key` of `j`, when `j` is an object that has it.
pub open spec fn spec_field(j: JVal, key: Seq<char>) -> Option<JVal> {
    match j {
        JVal::Obj(fields) => spec_lookup(fields, key),
        _ => None,
    }
}

/// Relies on `str`'s `PartialEq`: two string slices are equal exactly when
/// their character sequences are.
#[verifier::external_body]
pub(crate) fn str_eq(a: &str, b: &str) -> (r: bool)
    ensures
        r == (a@ == b@),
{
    a == b
}

impl Json {
    /// Looks a field up in an object, front to back; `None` for a missing
    /// field and for any non-object.
    pub fn field<'a>(&'a self, key: &str) -> (r: Option<&'a Json>)
        ensures
            match r {
                Some(v) => spec_field(self@, key@) == Some(v@),
                None => spec_field(self@, key@) is None,
            },
    {
        match self {
            Json::Obj(fields) => {
                let ghost all = Json::jfields(fields@);
                proof {
                    lemma_jfields(fields@);
                    assert(all.skip(0) =~= all);
                }
                let n = fields.len();
                let mut i: usize = 0;
                while i < n
                    invariant
                        n == fields@.len(),
                        i <= n,
                        all == Json::jfields(fields@),
                        all.len() == n,
                        forall|k: int| 0 <= k < n ==> all[k] == (fields@[k].0@, fields@[k].1@),
                        self@ == JVal::Obj(all),
                        spec_lookup(all, key@) == spec_lookup(all.skip(i as int), key@),
                    decreases n - i,
                {
                    assert(all.skip(i as int)[0] == all[i as int]);
                    if str_eq(fields[i].0.as_str(), key) {
                        return Some(&fields[i].1);
                    }
                    assert(all.skip(i as int).drop_first() =~= all.skip(i + 1 as int));
                    i = i + 1;
                }
                assert(all.skip(n as int) =~= Seq::<(Seq<char>, JVal)>::empty());
                None
            },
            _ => None,
        }
    }

    /// The boolean carried by the value, if it is one.
    pub fn as_bool(&self) -> (r: Option<bool>)
        ensures
            match r {
                Some(b) => self@ == JVal::Bool(b),
                None => !(self@ is Bool),
            },
    {
        match self {
            Json::Bool(b) => Some(*b),
            _ => None,
        }
    }

    /// The integer carried by the value, when it fits in an `i64`.
    pub fn as_i64(&self) -> (r: Option<i64>)
        ensures
            match r {
                Some(i) => self@ == JVal::Int(i as int),
                None => !(self@ matches JVal::Int(i) && i64::MIN <= i <= i64::MAX),
            },
    {
        match self {
            Json::Int(i) => Some(*i),
            Json::UInt(u) => {
                if *u <= i64::MAX as u64 {
                    Some(*u as i64)
                } else {
                    None
                }
            },
            _ => None,
        }
    }

    /// The integer carried by the value, when it is in `0 ..= u64::MAX`.
    pub fn as_u64(&self) -> (r: Option<u64>)
        ensures
            match r {
                Some(u) => self@ == JVal::Int(u as int),
                None => !(self@ matches JVal::Int(i) && 0 <= i <= u64::MAX),
            },
    {
        match self {
            Json::Int(i) => {
                if *i >= 0 {
                    Some(*i as u64)
                } else {
                    None
                }
            },
            Json::UInt(u) => Some(*u),
            _ => None,
        }
    }

    /// The string carried by the value, if it is one.
    pub fn as_str<'a>(&'a self) -> (r: Option<&'a String>)
        ensures
            match r {
                Some(s) => self@ == JVal::Str(s@),
                None => !(self@ is Str),
            },
    {
        match self {
            Json::Str(s) => Some(s),
            _ => None,
        }
    }

    /// The elements of the value, if it is an array.
    pub fn as_arr<'a>(&'a self) -> (r: Option<&'a Vec<Json>>)
        ensures
            match r {
                Some(items) => self@ == JVal::Arr(Json::jvals(items@)),
                None => !(self@ is Arr),
            },
    {
        match self {
            Json::Arr(items) => Some(items),
            _ => None,
        }
    }
}

/// The JSON node type of `serde_json`, declared so that the trusted
/// conversions below may take and return it; the library never looks inside.
#[verifier::external_type_specification]
#[verifier::external_body]
pub struct ExValue(serde_json::Value);

/// What `serde_json` parses a given text into: `None` exactly when the text
/// is not valid JSON.
pub uninterp spec fn json_of(text: Seq<char>) -> Option<JVal>;

/// What `serde_json` writes a given value as.
pub uninterp spec fn text_of(j: JVal) -> Seq<char>;

/// Relies on `serde_json::Value`: the parsed nodes are mapped one-to-one
/// onto [`Json`]. A number outside `i64` and `u64` (a fraction) becomes
/// [`Json::Null`]; of an object with a repeated key the last occurrence is
/// kept, so the fields of a parsed object are distinct.
#[verifier::external_body]
fn json_from_value(v: &serde_json::Value) -> Json {
    match v {
        serde_json::Value::Null => Json::Null,
        serde_json::Value::Bool(b) => Json::Bool(*b),
        serde_json::Value::Number(n) => match (n.as_i64(), n.as_u64()) {
            (Some(i), _) => Json::Int(i),
            (None, Some(u)) => Json::UInt(u),
            _ => Json::Null,
        },
        serde_json::Value::String(s) => Json::Str(s.clone()),
        serde_json::Value::Array(items) => Json::Arr(items.iter().map(json_from_value).collect()),
        serde_json::Value::Object(fields) => Json::Obj(
            fields.iter().map(|(k, x)| (k.clone(), json_from_value(x))).collect(),
        ),
    }
}

/// Relies on `serde_json::from_str::<serde_json::Value>`: the text is parsed
/// as one JSON document, and rejected exactly when it is not one.
#[verifier::external_body]
pub(crate) fn parse_json(text: &str) -> (r: Option<Json>)
    ensures
        match r {
            Some(j) => json_of(text@) == Some(j@),
            None => json_of(text@) is None,
        },
{
    match serde_json::from_str::<serde_json::Value>(text) {
        Ok(v) => Some(json_from_value(&v)),
        Err(_) => None,
    }
}

/// Relies on `serde_json::Value`: the inverse of [`json_from_value`], built
/// variant by variant. Recurses as deep as the tree nests, as the writer it
/// feeds does.
#[verifier::external_body]
fn value_from_json(j: &Json) -> serde_json::Value {
    match j {
        Json::Null => serde_json::Value::Null,
        Json::Bool(b) => serde_json::Value::Bool(*b),
        Json::Int(i) => serde_json::Value::Number(serde_json::Number::from(*i)),
        Json::UInt(u) => serde_json::Value::Number(serde_json::Number::from(*u)),
        Json::Str(s) => serde_json::Value::String(s.clone()),
        Json::Arr(items) => serde_json::Value::Array(items.iter().map(value_from_json).collect()),
        Json::Obj(fields) => serde_json::Value::Object(
            fields.iter().map(|(k, x)| (k.clone(), value_from_json(x))).collect(),
        ),
    }
}

/// Relies on `serde_json::to_string`: writing a `serde_json::Value` never
/// fails, and its output is a function of the value alone.
#[verifier::external_body]
pub(crate) fn emit_json(j: &Json) -> (r: String)
    ensures
        r@ == text_of(j@),
{
    match serde_json::to_string(&value_from_json(j)) {
        Ok(s) => s,
        Err(_) => String::new(),
    }
}

} // verus!
