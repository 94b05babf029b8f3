//! Two example record types, with explicit descriptions of the record
//! each instance maps to.
use vstd::prelude::*;
use crate::value::{Field, Record, Value};

verus! {

/// A client: an optional row id, a name and an age.
#[derive(Clone, Debug, PartialEq, Eq)]
pub struct Client {
    /// The row id; absent until the engine assigns one.
    pub id: Option<u32>,
    /// The client's name.
    pub name: String,
    /// The client's age.
    pub age: u8,
}

/// A product: an optional row id, a name and a price.
#[derive(Clone, Debug, PartialEq, Eq)]
pub struct Product {
    /// The row id; absent until the engine assigns one.
    pub id: Option<u32>,
    /// The product's name.
    pub name: String,
    /// The product's price.
    pub price: u8,
}

/// The value an optional row id carries: null while absent.
pub open spec fn id_value(id: Option<u32>) -> Value {
    match id {
        Option::Some(n) => Value::Integer(n as i64),
        Option::None => Value::Null,
    }
}

impl Client {
    /// Describes this instance as a record: the fields in declaration
    /// order.
    pub fn to_record(&self) -> (r: Record)
        ensures
            r.fields@.len() == 3,
            r.fields@[0].name@ == "id"@ && r.fields@[0].value == id_value(self.id),
            r.fields@[1].name@ == "name"@ && r.fields@[1].value == Value::Text(self.name),
            r.fields@[2].name@ == "age"@ && r.fields@[2].value == Value::Integer(self.age as i64),
    {
        let mut r = Record::new();
        let id_val = match self.id {
            Option::Some(n) => Value::Integer(n as i64),
            Option::None => Value::Null,
        };
        r.push_field(String::from_str("id"), id_val);
        r.push_field(String::from_str("name"), Value::Text(self.name.clone()));
        r.push_field(String::from_str("age"), Value::Integer(self.age as i64));
        r
    }
}

impl Product {
    /// Describes this instance as a record: the fields in declaration
    /// order.
    pub fn to_record(&self) -> (r: Record)
        ensures
            r.fields@.len() == 3,
            r.fields@[0].name@ == "id"@ && r.fields@[0].value == id_value(self.id),
            r.fields@[1].name@ == "name"@ && r.fields@[1].value == Value::Text(self.name),
            r.fields@[2].name@ == "price"@ && r.fields@[2].value == Value::Integer(
                self.price as i64,
            ),
    {
        let mut r = Record::new();
        let id_val = match self.id {
            Option::Some(n) => Value::Integer(n as i64),
            Option::None => Value::Null,
        };
        r.push_field(String::from_str("id"), id_val);
        r.push_field(String::from_str("name"), Value::Text(self.name.clone()));
        r.push_field(String::from_str("price"), Value::Integer(self.price as i64));
        r
    }
}

} // verus!
