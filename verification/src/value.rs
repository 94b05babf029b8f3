//! The record model: a record is an ordered list of named primitive values.
//!
//! A caller describes the value of each field explicitly instead of having
//! it inferred by reflection, so the schema a record produces is a plain
//! function of the record.
use vstd::prelude::*;
use crate::strutil::{int_rep, i64_to_string};

verus! {

/// One primitive field value.
///
/// A non-integer number is carried as its already-rendered decimal text,
/// since the statement builders only ever pass it on as a bound parameter.
#[derive(Clone, Debug, PartialEq, Eq)]
pub enum Value {
    /// An absent or null value.
    Null,
    /// A signed integer.
    Integer(i64),
    /// A non-integer number, as its decimal text.
    Real(String),
    /// A string.
    Text(String),
    /// A boolean.
    Boolean(bool),
}

/// One named field of a record.
#[derive(Clone, Debug, PartialEq, Eq)]
pub struct Field {
    /// The field's name, which becomes the column name.
    pub name: String,
    /// The field's value.
    pub value: Value,
}

/// A record: the fields in declaration order. Column order follows this
/// order exactly.
#[derive(Clone, Debug, PartialEq, Eq)]
pub struct Record {
    /// The fields, in order.
    pub fields: Vec<Field>,
}

/// The text under which a value travels as a bound parameter: integers and
/// booleans by their literal text, null by its marker, and strings as they
/// are — parameter binding needs no quoting.
pub open spec fn sql_text_of(v: Value) -> Seq<char> {
    match v {
        Value::Null => "NULL"@,
        Value::Integer(i) => int_rep(i as int),
        Value::Real(s) => s@,
        Value::Text(s) => s@,
        Value::Boolean(b) => if b {
            "true"@
        } else {
            "false"@
        },
    }
}

impl Value {
    /// Renders the value as the text to bind for it.
    pub fn to_sql_text(&self) -> (r: String)
        ensures
            r@ == sql_text_of(*self),
    {
        match self {
            Value::Null => String::from_str("NULL"),
            Value::Integer(i) => i64_to_string(*i),
            Value::Real(s) => s.clone(),
            Value::Text(s) => s.clone(),
            Value::Boolean(b) => if *b {
                String::from_str("true")
            } else {
                String::from_str("false")
            },
        }
    }
}

impl Record {
    /// Builds an empty record.
    pub fn new() -> (r: Record)
        ensures
            r.fields@ =~= Seq::<Field>::empty(),
    {
        Record { fields: Vec::new() }
    }

    /// Appends one field to the record.
    pub fn push_field(&mut self, name: String, value: Value)
        ensures
            final(self).fields@ == old(self).fields@.push(Field { name, value }),
    {
        self.fields.push(Field { name, value });
    }
}

} // verus!
