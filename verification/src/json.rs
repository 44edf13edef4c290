use vstd::prelude::*;

verus! {

/// A structured payload value: the tree of nested mappings, arrays and
/// scalars that events carry.
///
/// Numbers are held as 64-bit signed integers, which covers every payload the
/// protocol itself produces or reads; objects keep their keys in insertion
/// order as a vector of pairs.
#[derive(Debug, PartialEq)]
pub enum JsonValue {
    Null,
    Bool(bool),
    Int(i64),
    Str(String),
    Arr(Vec<JsonValue>),
    Obj(Vec<(String, JsonValue)>),
}

} // verus!
