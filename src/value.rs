//! Stored values and key/value pairs, with their mathematical views.
use vstd::prelude::*;

verus! {

/// One tagged scalar. A 64-bit float is held as its IEEE-754 bit pattern, so
/// that it is stored and returned bit for bit.
#[derive(Debug, Clone)]
pub enum Scalar {
    String(String),
    Integer(i64),
    Float(u64),
    Bool(bool),
    Binary(Vec<u8>),
}

/// What a `Scalar` holds, as plain mathematical values.
pub enum ScalarModel {
    Str(Seq<char>),
    Integer(i64),
    Float(u64),
    Bool(bool),
    Binary(Seq<u8>),
}

impl View for Scalar {
    type V = ScalarModel;

    open spec fn view(&self) -> ScalarModel {
        match self {
            Scalar::String(s) => ScalarModel::Str(s@),
            Scalar::Integer(i) => ScalarModel::Integer(*i),
            Scalar::Float(b) => ScalarModel::Float(*b),
            Scalar::Bool(b) => ScalarModel::Bool(*b),
            Scalar::Binary(v) => ScalarModel::Binary(v@),
        }
    }
}

/// A stored value: a scalar, or the empty value that stands for "nothing was
/// there" in batch results.
#[derive(Debug, Clone)]
pub struct Value {
    pub value: Option<Scalar>,
}

/// The view of a `Value`: `None` for the empty value.
pub type ValueModel = Option<ScalarModel>;

impl View for Value {
    type V = ValueModel;

    open spec fn view(&self) -> ValueModel {
        match self.value {
            Some(s) => Some(s@),
            None => None,
        }
    }
}

fn copy_bytes(b: &Vec<u8>) -> (r: Vec<u8>)
    ensures
        r@ == b@,
{
    let mut r: Vec<u8> = Vec::with_capacity(b.len());
    let mut i: usize = 0;
    while i < b.len()
        invariant
            i <= b@.len(),
            r@ == b@.subrange(0, i as int),
        decreases b@.len() - i,
    {
        r.push(b[i]);
        i += 1;
        assert(r@ =~= b@.subrange(0, i as int));
    }
    assert(r@ =~= b@);
    r
}

impl Scalar {
    /// A copy of the scalar that shares nothing with it.
    pub fn duplicate(&self) -> (r: Scalar)
        ensures
            r@ == self@,
    {
        match self {
            Scalar::String(s) => Scalar::String(s.clone()),
            Scalar::Integer(i) => Scalar::Integer(*i),
            Scalar::Float(b) => Scalar::Float(*b),
            Scalar::Bool(b) => Scalar::Bool(*b),
            Scalar::Binary(v) => Scalar::Binary(copy_bytes(v)),
        }
    }
}

impl Value {
    /// The empty value.
    pub fn empty() -> (r: Value)
        ensures
            r@ == None::<ScalarModel>,
    {
        Value { value: None }
    }

    /// A float value, given as the float's IEEE-754 bit pattern.
    pub fn from_float_bits(bits: u64) -> (r: Value)
        ensures
            r@ == Some(ScalarModel::Float(bits)),
    {
        Value { value: Some(Scalar::Float(bits)) }
    }

    /// A copy of the value that shares nothing with it: reads hand out copies,
    /// never the stored value itself.
    pub fn duplicate(&self) -> (r: Value)
        ensures
            r@ == self@,
    {
        match &self.value {
            Some(s) => Value { value: Some(s.duplicate()) },
            None => Value { value: None },
        }
    }
}

impl From<String> for Value {
    fn from(s: String) -> (r: Value) {
        Value { value: Some(Scalar::String(s)) }
    }
}

impl vstd::std_specs::convert::FromSpecImpl<String> for Value {
    open spec fn obeys_from_spec() -> bool {
        true
    }

    open spec fn from_spec(s: String) -> Value {
        Value { value: Some(Scalar::String(s)) }
    }
}

impl From<i64> for Value {
    fn from(i: i64) -> (r: Value) {
        Value { value: Some(Scalar::Integer(i)) }
    }
}

impl vstd::std_specs::convert::FromSpecImpl<i64> for Value {
    open spec fn obeys_from_spec() -> bool {
        true
    }

    open spec fn from_spec(i: i64) -> Value {
        Value { value: Some(Scalar::Integer(i)) }
    }
}

impl From<bool> for Value {
    fn from(b: bool) -> (r: Value) {
        Value { value: Some(Scalar::Bool(b)) }
    }
}

impl vstd::std_specs::convert::FromSpecImpl<bool> for Value {
    open spec fn obeys_from_spec() -> bool {
        true
    }

    open spec fn from_spec(b: bool) -> Value {
        Value { value: Some(Scalar::Bool(b)) }
    }
}

/// One entry of a table: a key and its value.
#[derive(Debug, Clone)]
pub struct Kvpair {
    pub key: String,
    pub value: Value,
}

impl View for Kvpair {
    type V = (Seq<char>, ValueModel);

    open spec fn view(&self) -> (Seq<char>, ValueModel) {
        (self.key@, self.value@)
    }
}

impl Kvpair {
    /// A pair of `key` and `value`.
    pub fn new(key: &str, value: Value) -> (r: Kvpair)
        ensures
            r.key@ == key@,
            r.value == value,
    {
        Kvpair { key: String::from_str(key), value }
    }
}

/// The views of a sequence of values.
pub open spec fn values_view(vs: Seq<Value>) -> Seq<ValueModel> {
    vs.map_values(|v: Value| v@)
}

/// The views of a sequence of pairs.
pub open spec fn pairs_view(ps: Seq<Kvpair>) -> Seq<(Seq<char>, ValueModel)> {
    ps.map_values(|p: Kvpair| p@)
}

} // verus!
