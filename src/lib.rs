//! A bridge that presents compiled Mun modules as host scripts: instances with
//! a property store, dynamic method calls checked by arity and argument type,
//! the header-comment base type convention, and a path-to-identifier table.

pub mod value;
pub mod name_map;
pub mod property_store;
pub mod invocation;
pub mod script_instance;
pub mod header;
pub mod uid_map;
pub mod text;
pub mod script;
pub mod resource;
pub mod language;
