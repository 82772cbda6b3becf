use vstd::prelude::*;

verus! {

/// The type tag of a dynamic [`Value`].
#[derive(Debug, Clone, Copy, PartialEq, Eq, Structural)]
pub enum ValueType {
    Nil,
    Bool,
    Int,
    Float,
    String,
    Object,
}

/// A dynamically typed value as it crosses the boundary between the host and
/// a script instance.
#[derive(Debug, PartialEq, Eq)]
pub enum Value {
    Nil,
    Bool(bool),
    Int(i64),
    /// A floating-point value, carried as its IEEE-754 bit pattern.
    Float(u64),
    Str(String),
    /// A reference to a host object, by the host's instance identifier.
    Object(u64),
}

impl Value {
    pub open spec fn kind(self) -> ValueType {
        match self {
            Value::Nil => ValueType::Nil,
            Value::Bool(_) => ValueType::Bool,
            Value::Int(_) => ValueType::Int,
            Value::Float(_) => ValueType::Float,
            Value::Str(_) => ValueType::String,
            Value::Object(_) => ValueType::Object,
        }
    }

    /// The value as a 64-bit signed integer, where it is one.
    pub open spec fn as_int(self) -> Option<i64> {
        match self {
            Value::Int(i) => Some(i),
            _ => None,
        }
    }

    pub fn value_type(&self) -> (r: ValueType)
        ensures
            r == self.kind(),
    {
        match self {
            Value::Nil => ValueType::Nil,
            Value::Bool(_) => ValueType::Bool,
            Value::Int(_) => ValueType::Int,
            Value::Float(_) => ValueType::Float,
            Value::Str(_) => ValueType::String,
            Value::Object(_) => ValueType::Object,
        }
    }

    /// Coerces the value to a 64-bit signed integer; only an integer coerces.
    pub fn try_to_int(&self) -> (r: Option<i64>)
        ensures
            r == self.as_int(),
    {
        match self {
            Value::Int(i) => Some(*i),
            _ => None,
        }
    }
}

impl Clone for Value {
    fn clone(&self) -> (r: Self)
        ensures
            r == *self,
    {
        match self {
            Value::Nil => Value::Nil,
            Value::Bool(b) => Value::Bool(*b),
            Value::Int(i) => Value::Int(*i),
            Value::Float(bits) => Value::Float(*bits),
            Value::Str(s) => Value::Str(s.clone()),
            Value::Object(id) => Value::Object(*id),
        }
    }
}

} // verus!
