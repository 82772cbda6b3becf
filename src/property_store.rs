use vstd::prelude::*;

use crate::name_map::NameMap;
use crate::value::{Value, ValueType};

verus! {

/// The live field state of a script instance: each declared property name
/// holds one value, and setting never creates a property.
pub type PropertyStore = NameMap<Value>;

/// What the host is shown of one declared property: its type tag, its display
/// name and its usage flags.
#[derive(Debug, PartialEq, Eq)]
pub struct PropertyInfo {
    pub type_: ValueType,
    pub name: String,
    pub usage: u32,
}

impl Clone for PropertyInfo {
    fn clone(&self) -> (r: Self)
        ensures
            r == *self,
    {
        PropertyInfo { type_: self.type_, name: self.name.clone(), usage: self.usage }
    }
}

} // verus!
