use vstd::prelude::*;
use vstd::string::StringExecFns;
use crate::composite_a::{A, AView};
use crate::composite_b::{B, BView};
use crate::leaf_c::{C, CView};
use crate::leaf_d::{D, DView};
use crate::simple::{Greeting, GreetingView};

verus! {

/// A generic key-value record format. A record serializes to a list of
/// named fields, each holding either text or a nested record.
pub enum Value {
    Text(String),
    Record(Vec<(String, Value)>),
}

/// Why decoding a `Value` into a record can fail: the input was
/// structurally malformed.
#[derive(Clone, Copy, Debug, PartialEq, Eq, Structural)]
pub enum DecodeError {
    /// Plain text stood where a record was expected.
    NotARecord,
    /// The record does not carry exactly the expected fields.
    BadFields,
    /// An expected field is present but holds the wrong kind of value.
    WrongFieldType,
}

/// Compares a field key against the expected field name.
fn key_matches(k: &String, expected: &str) -> (r: bool)
    ensures
        r == (k@ == expected@),
{
    let e = String::from_str(expected);
    *k == e
}

/// `v` is the serialized form of a leaf `C` with content `c`: one field
/// "name" holding the name as text.
pub open spec fn is_c_encoding(v: Value, c: CView) -> bool {
    match v {
        Value::Record(fields) => {
            &&& fields@.len() == 1
            &&& fields@[0].0@ == "name"@
            &&& (fields@[0].1 matches Value::Text(n) && n@ == c.name)
        },
        Value::Text(_) => false,
    }
}

/// What decoding a `Value` as a leaf `C` yields: the unique `C` content
/// it encodes, or the error describing how it is malformed.
pub open spec fn decode_c(v: Value) -> Result<CView, DecodeError> {
    match v {
        Value::Text(_) => Err(DecodeError::NotARecord),
        Value::Record(fields) => if fields@.len() != 1 || fields@[0].0@ != "name"@ {
            Err(DecodeError::BadFields)
        } else {
            match fields@[0].1 {
                Value::Text(n) => Ok(CView { name: n@ }),
                Value::Record(_) => Err(DecodeError::WrongFieldType),
            }
        },
    }
}

/// `v` is the serialized form of a leaf `D` with content `d`: one field
/// "name" holding the name as text.
pub open spec fn is_d_encoding(v: Value, d: DView) -> bool {
    match v {
        Value::Record(fields) => {
            &&& fields@.len() == 1
            &&& fields@[0].0@ == "name"@
            &&& (fields@[0].1 matches Value::Text(n) && n@ == d.name)
        },
        Value::Text(_) => false,
    }
}

/// What decoding a `Value` as a leaf `D` yields.
pub open spec fn decode_d(v: Value) -> Result<DView, DecodeError> {
    match v {
        Value::Text(_) => Err(DecodeError::NotARecord),
        Value::Record(fields) => if fields@.len() != 1 || fields@[0].0@ != "name"@ {
            Err(DecodeError::BadFields)
        } else {
            match fields@[0].1 {
                Value::Text(n) => Ok(DView { name: n@ }),
                Value::Record(_) => Err(DecodeError::WrongFieldType),
            }
        },
    }
}

/// `v` is the serialized form of a composite `B` with content `b`: a
/// field "name" holding the name as text, then a field "c" holding the
/// serialized child `C`.
pub open spec fn is_b_encoding(v: Value, b: BView) -> bool {
    match v {
        Value::Record(fields) => {
            &&& fields@.len() == 2
            &&& fields@[0].0@ == "name"@
            &&& (fields@[0].1 matches Value::Text(n) && n@ == b.name)
            &&& fields@[1].0@ == "c"@
            &&& is_c_encoding(fields@[1].1, b.c)
        },
        Value::Text(_) => false,
    }
}

/// What decoding a `Value` as a composite `B` yields; an error in the
/// nested child record propagates to the caller.
pub open spec fn decode_b(v: Value) -> Result<BView, DecodeError> {
    match v {
        Value::Text(_) => Err(DecodeError::NotARecord),
        Value::Record(fields) => if fields@.len() != 2 || fields@[0].0@ != "name"@
            || fields@[1].0@ != "c"@ {
            Err(DecodeError::BadFields)
        } else {
            match fields@[0].1 {
                Value::Text(n) => match decode_c(fields@[1].1) {
                    Ok(c) => Ok(BView { name: n@, c }),
                    Err(e) => Err(e),
                },
                Value::Record(_) => Err(DecodeError::WrongFieldType),
            }
        },
    }
}

/// `v` is the serialized form of a composite `A` with content `a`: a
/// field "name" holding the name as text, then a field "b" holding the
/// serialized child `B`.
pub open spec fn is_a_encoding(v: Value, a: AView) -> bool {
    match v {
        Value::Record(fields) => {
            &&& fields@.len() == 2
            &&& fields@[0].0@ == "name"@
            &&& (fields@[0].1 matches Value::Text(n) && n@ == a.name)
            &&& fields@[1].0@ == "b"@
            &&& is_b_encoding(fields@[1].1, a.b)
        },
        Value::Text(_) => false,
    }
}

/// What decoding a `Value` as a composite `A` yields; an error in the
/// nested child record propagates to the caller.
pub open spec fn decode_a(v: Value) -> Result<AView, DecodeError> {
    match v {
        Value::Text(_) => Err(DecodeError::NotARecord),
        Value::Record(fields) => if fields@.len() != 2 || fields@[0].0@ != "name"@
            || fields@[1].0@ != "b"@ {
            Err(DecodeError::BadFields)
        } else {
            match fields@[0].1 {
                Value::Text(n) => match decode_b(fields@[1].1) {
                    Ok(b) => Ok(AView { name: n@, b }),
                    Err(e) => Err(e),
                },
                Value::Record(_) => Err(DecodeError::WrongFieldType),
            }
        },
    }
}

/// `v` is the serialized form of a `Greeting` with content `g`: one
/// field "message" holding the message as text.
pub open spec fn is_greeting_encoding(v: Value, g: GreetingView) -> bool {
    match v {
        Value::Record(fields) => {
            &&& fields@.len() == 1
            &&& fields@[0].0@ == "message"@
            &&& (fields@[0].1 matches Value::Text(m) && m@ == g.message)
        },
        Value::Text(_) => false,
    }
}

/// What decoding a `Value` as a `Greeting` yields.
pub open spec fn decode_greeting(v: Value) -> Result<GreetingView, DecodeError> {
    match v {
        Value::Text(_) => Err(DecodeError::NotARecord),
        Value::Record(fields) => if fields@.len() != 1 || fields@[0].0@ != "message"@ {
            Err(DecodeError::BadFields)
        } else {
            match fields@[0].1 {
                Value::Text(m) => Ok(GreetingView { message: m@ }),
                Value::Record(_) => Err(DecodeError::WrongFieldType),
            }
        },
    }
}

impl C {
    /// Serializes this `C` into the record format: its public fields,
    /// here the single field "name".
    pub fn to_value(&self) -> (v: Value)
        ensures
            is_c_encoding(v, self@),
    {
        let mut fields: Vec<(String, Value)> = Vec::new();
        fields.push((String::from_str("name"), Value::Text(self.name.clone())));
        Value::Record(fields)
    }

    /// Decodes a `C` from the record format; structurally malformed
    /// input surfaces as a `DecodeError`.
    pub fn from_value(v: &Value) -> (r: Result<C, DecodeError>)
        ensures
            (match r {
                Ok(c) => decode_c(*v) == Ok::<CView, DecodeError>(c@),
                Err(e) => decode_c(*v) == Err::<CView, DecodeError>(e),
            }),
    {
        match v {
            Value::Text(_) => Err(DecodeError::NotARecord),
            Value::Record(fields) => {
                if fields.len() != 1 {
                    Err(DecodeError::BadFields)
                } else {
                    let f0 = &fields[0];
                    if !key_matches(&f0.0, "name") {
                        Err(DecodeError::BadFields)
                    } else {
                        match &f0.1 {
                            Value::Text(n) => Ok(C { name: n.clone() }),
                            Value::Record(_) => Err(DecodeError::WrongFieldType),
                        }
                    }
                }
            },
        }
    }
}

impl D {
    /// Serializes this `D` into the record format: its public fields,
    /// here the single field "name".
    pub fn to_value(&self) -> (v: Value)
        ensures
            is_d_encoding(v, self@),
    {
        let mut fields: Vec<(String, Value)> = Vec::new();
        fields.push((String::from_str("name"), Value::Text(self.name.clone())));
        Value::Record(fields)
    }

    /// Decodes a `D` from the record format; structurally malformed
    /// input surfaces as a `DecodeError`.
    pub fn from_value(v: &Value) -> (r: Result<D, DecodeError>)
        ensures
            (match r {
                Ok(d) => decode_d(*v) == Ok::<DView, DecodeError>(d@),
                Err(e) => decode_d(*v) == Err::<DView, DecodeError>(e),
            }),
    {
        match v {
            Value::Text(_) => Err(DecodeError::NotARecord),
            Value::Record(fields) => {
                if fields.len() != 1 {
                    Err(DecodeError::BadFields)
                } else {
                    let f0 = &fields[0];
                    if !key_matches(&f0.0, "name") {
                        Err(DecodeError::BadFields)
                    } else {
                        match &f0.1 {
                            Value::Text(n) => Ok(D { name: n.clone() }),
                            Value::Record(_) => Err(DecodeError::WrongFieldType),
                        }
                    }
                }
            },
        }
    }
}

impl B {
    /// Serializes this `B` into the record format: the field "name",
    /// then the field "c" holding the serialized child.
    pub fn to_value(&self) -> (v: Value)
        ensures
            is_b_encoding(v, self@),
    {
        let mut fields: Vec<(String, Value)> = Vec::new();
        fields.push((String::from_str("name"), Value::Text(self.name.clone())));
        fields.push((String::from_str("c"), self.c.to_value()));
        Value::Record(fields)
    }

    /// Decodes a `B` from the record format; structurally malformed
    /// input, in the record itself or in its nested child, surfaces as
    /// a `DecodeError`.
    pub fn from_value(v: &Value) -> (r: Result<B, DecodeError>)
        ensures
            (match r {
                Ok(b) => decode_b(*v) == Ok::<BView, DecodeError>(b@),
                Err(e) => decode_b(*v) == Err::<BView, DecodeError>(e),
            }),
    {
        match v {
            Value::Text(_) => Err(DecodeError::NotARecord),
            Value::Record(fields) => {
                if fields.len() != 2 {
                    Err(DecodeError::BadFields)
                } else {
                    let f0 = &fields[0];
                    let f1 = &fields[1];
                    if !key_matches(&f0.0, "name") || !key_matches(&f1.0, "c") {
                        Err(DecodeError::BadFields)
                    } else {
                        match &f0.1 {
                            Value::Text(n) => match C::from_value(&f1.1) {
                                Ok(c) => Ok(B { name: n.clone(), c }),
                                Err(e) => Err(e),
                            },
                            Value::Record(_) => Err(DecodeError::WrongFieldType),
                        }
                    }
                }
            },
        }
    }
}

impl A {
    /// Serializes this `A` into the record format: the field "name",
    /// then the field "b" holding the serialized child.
    pub fn to_value(&self) -> (v: Value)
        ensures
            is_a_encoding(v, self@),
    {
        let mut fields: Vec<(String, Value)> = Vec::new();
        fields.push((String::from_str("name"), Value::Text(self.name.clone())));
        fields.push((String::from_str("b"), self.b.to_value()));
        Value::Record(fields)
    }

    /// Decodes an `A` from the record format; structurally malformed
    /// input, in the record itself or anywhere in its nested children,
    /// surfaces as a `DecodeError`.
    pub fn from_value(v: &Value) -> (r: Result<A, DecodeError>)
        ensures
            (match r {
                Ok(a) => decode_a(*v) == Ok::<AView, DecodeError>(a@),
                Err(e) => decode_a(*v) == Err::<AView, DecodeError>(e),
            }),
    {
        match v {
            Value::Text(_) => Err(DecodeError::NotARecord),
            Value::Record(fields) => {
                if fields.len() != 2 {
                    Err(DecodeError::BadFields)
                } else {
                    let f0 = &fields[0];
                    let f1 = &fields[1];
                    if !key_matches(&f0.0, "name") || !key_matches(&f1.0, "b") {
                        Err(DecodeError::BadFields)
                    } else {
                        match &f0.1 {
                            Value::Text(n) => match B::from_value(&f1.1) {
                                Ok(b) => Ok(A { name: n.clone(), b }),
                                Err(e) => Err(e),
                            },
                            Value::Record(_) => Err(DecodeError::WrongFieldType),
                        }
                    }
                }
            },
        }
    }
}

impl Greeting {
    /// Serializes this `Greeting` into the record format: the single
    /// field "message".
    pub fn to_value(&self) -> (v: Value)
        ensures
            is_greeting_encoding(v, self@),
    {
        let mut fields: Vec<(String, Value)> = Vec::new();
        fields.push((String::from_str("message"), Value::Text(self.message.clone())));
        Value::Record(fields)
    }

    /// Decodes a `Greeting` from the record format; structurally
    /// malformed input surfaces as a `DecodeError`.
    pub fn from_value(v: &Value) -> (r: Result<Greeting, DecodeError>)
        ensures
            (match r {
                Ok(g) => decode_greeting(*v) == Ok::<GreetingView, DecodeError>(g@),
                Err(e) => decode_greeting(*v) == Err::<GreetingView, DecodeError>(e),
            }),
    {
        match v {
            Value::Text(_) => Err(DecodeError::NotARecord),
            Value::Record(fields) => {
                if fields.len() != 1 {
                    Err(DecodeError::BadFields)
                } else {
                    let f0 = &fields[0];
                    if !key_matches(&f0.0, "message") {
                        Err(DecodeError::BadFields)
                    } else {
                        match &f0.1 {
                            Value::Text(m) => Ok(Greeting { message: m.clone() }),
                            Value::Record(_) => Err(DecodeError::WrongFieldType),
                        }
                    }
                }
            },
        }
    }
}

/// Round trip for `C`: decoding any serialized form of a `C` yields
/// exactly that `C`, field for field.
pub proof fn lemma_c_round_trip(v: Value, c: CView)
    requires
        is_c_encoding(v, c),
    ensures
        decode_c(v) == Ok::<CView, DecodeError>(c),
{
}

/// Round trip for `D`: decoding any serialized form of a `D` yields
/// exactly that `D`, field for field.
pub proof fn lemma_d_round_trip(v: Value, d: DView)
    requires
        is_d_encoding(v, d),
    ensures
        decode_d(v) == Ok::<DView, DecodeError>(d),
{
}

/// Round trip for `B`: decoding any serialized form of a `B` yields
/// exactly that `B`, field for field, its nested child included.
pub proof fn lemma_b_round_trip(v: Value, b: BView)
    requires
        is_b_encoding(v, b),
    ensures
        decode_b(v) == Ok::<BView, DecodeError>(b),
{
    let fields = v->Record_0;
    lemma_c_round_trip(fields@[1].1, b.c);
}

/// Round trip for `A`: decoding any serialized form of an `A` yields
/// exactly that `A`, field for field, its nested children included.
pub proof fn lemma_a_round_trip(v: Value, a: AView)
    requires
        is_a_encoding(v, a),
    ensures
        decode_a(v) == Ok::<AView, DecodeError>(a),
{
    let fields = v->Record_0;
    lemma_b_round_trip(fields@[1].1, a.b);
}

/// Round trip for `Greeting`: decoding any serialized form of a
/// `Greeting` yields exactly that `Greeting`, field for field.
pub proof fn lemma_greeting_round_trip(v: Value, g: GreetingView)
    requires
        is_greeting_encoding(v, g),
    ensures
        decode_greeting(v) == Ok::<GreetingView, DecodeError>(g),
{
}

} // verus!
