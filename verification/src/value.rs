//! The structured values exchanged with the model and the tools: a tagged
//! JSON-shaped sum type, with objects kept as ordered key/value pairs and
//! numbers restricted to integers (the engine's rules never need more).

use vstd::prelude::*;

verus! {

/// A JSON-shaped value.
pub enum StructuredValue {
    Null,
    Bool(bool),
    Int(i64),
    Text(String),
    Array(Vec<StructuredValue>),
    Object(Vec<(String, StructuredValue)>),
}

/// The first value bound to `key` among object fields, if any.
pub open spec fn obj_lookup(
    fields: Seq<(String, StructuredValue)>,
    key: Seq<char>,
) -> Option<StructuredValue>
    decreases fields.len(),
{
    if fields.len() == 0 {
        None
    } else if fields[0].0@ == key {
        Some(fields[0].1)
    } else {
        obj_lookup(fields.drop_first(), key)
    }
}

/// Object fields with every binding of `key` removed, order kept.
pub open spec fn obj_without(
    fields: Seq<(String, StructuredValue)>,
    key: Seq<char>,
) -> Seq<(String, StructuredValue)>
    decreases fields.len(),
{
    if fields.len() == 0 {
        seq![]
    } else if fields[0].0@ == key {
        obj_without(fields.drop_first(), key)
    } else {
        seq![fields[0]] + obj_without(fields.drop_first(), key)
    }
}

impl StructuredValue {
    /// Field lookup: the first field with this key, when the value is an
    /// object that has one.
    #[verifier::loop_isolation(false)]
    pub fn get_field<'a>(&'a self, key: &str) -> (r: Option<&'a StructuredValue>)
        ensures
            match self {
                StructuredValue::Object(fields) => match obj_lookup(fields@, key@) {
                    Some(v) => r matches Some(p) && *p == v,
                    None => r is None,
                },
                _ => r is None,
            },
    {
        match self {
            StructuredValue::Object(fields) => {
                let mut i: usize = 0;
                proof {
                    assert(fields@.skip(0) =~= fields@);
                }
                while i < fields.len()
                    invariant
                        i <= fields@.len(),
                        obj_lookup(fields@, key@) == obj_lookup(fields@.skip(i as int), key@),
                    decreases fields@.len() - i,
                {
                    if crate::encoding::str_eq(fields[i].0.as_str(), key) {
                        proof {
                            assert(fields@.skip(i as int)[0] == fields@[i as int]);
                            assert(obj_lookup(fields@.skip(i as int), key@)
                                == Some(fields@[i as int].1));
                        }
                        return Some(&fields[i].1);
                    }
                    proof {
                        assert(fields@.skip(i as int).drop_first() =~= fields@.skip(i + 1));
                    }
                    i = i + 1;
                }
                None
            },
            _ => None,
        }
    }

    /// The text content, when the value is text.
    pub fn as_text<'a>(&'a self) -> (r: Option<&'a String>)
        ensures
            match self {
                StructuredValue::Text(t) => r matches Some(p) && *p == t,
                _ => r is None,
            },
    {
        match self {
            StructuredValue::Text(t) => Some(t),
            _ => None,
        }
    }

    /// The integer content, when the value is an integer.
    pub fn as_int(&self) -> (r: Option<i64>)
        ensures
            match self {
                StructuredValue::Int(n) => r == Some(*n),
                _ => r is None,
            },
    {
        match self {
            StructuredValue::Int(n) => Some(*n),
            _ => None,
        }
    }

    /// The boolean content, when the value is a boolean.
    pub fn as_bool(&self) -> (r: Option<bool>)
        ensures
            match self {
                StructuredValue::Bool(b) => r == Some(*b),
                _ => r is None,
            },
    {
        match self {
            StructuredValue::Bool(b) => Some(*b),
            _ => None,
        }
    }
}

/// The `items` list of a response object, when it is present as an array —
/// the shape every Google list response uses.
pub open spec fn spec_items_array(data: StructuredValue) -> Option<Seq<StructuredValue>> {
    if data matches StructuredValue::Object(fs) && (obj_lookup(fs@, "items"@) matches Some(v)
        && v is Array) {
        Some(obj_lookup(data->Object_0@, "items"@)->Some_0->Array_0@)
    } else {
        None
    }
}

/// Builds a one-field object, the shape most tool errors use.
pub fn object_with_one(key: String, value: StructuredValue) -> (r: StructuredValue)
    ensures
        r matches StructuredValue::Object(fields) && fields@.len() == 1
            && fields@[0].0 == key && fields@[0].1 == value,
{
    let mut fields: Vec<(String, StructuredValue)> = Vec::new();
    fields.push((key, value));
    StructuredValue::Object(fields)
}

} // verus!
