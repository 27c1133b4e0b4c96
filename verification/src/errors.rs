//! Error type of the schema layer. There are exactly two failure kinds: a
//! name that no field of the schema matches, and a value the schema does not
//! carry where the native library would have handed back a null pointer.

use vstd::prelude::*;

verus! {

#[derive(Debug, PartialEq, Eq)]
pub enum GdalError {
    /// No field matches the requested name; carries the name asked for and
    /// the native lookup function that would have been consulted.
    InvalidFieldName { field_name: String, method_name: &'static str },
    /// The requested value is absent; carries the native function whose null
    /// result this stands for.
    NullPointer { method_name: &'static str },
}

} // verus!
