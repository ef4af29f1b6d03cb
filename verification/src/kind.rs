//! The abstract kinds a forced engine value can have, and the mapping from
//! the engine's numeric kind tags to them.

use vstd::prelude::*;

verus! {

/// The concrete kind of a forced value in the engine's heap.
///
/// A value that has not been forced yet is a thunk and has no concrete kind;
/// the engine reports it with a tag of its own (see [`THUNK_TAG`]), which
/// [`kind_from_tag`] maps to `None`.
#[derive(Clone, Copy, Debug, PartialEq, Eq, Structural)]
pub enum ValueKind {
    Integer,
    Float,
    Bool,
    String,
    Path,
    Null,
    AttrSet,
    List,
    Function,
    External,
}

/// The tag the engine uses for a value that is still an unforced thunk.
pub const THUNK_TAG: u32 = 0;

/// The concrete kind denoted by an engine kind tag, following the engine's
/// numbering of its kind enumeration; `None` for the thunk tag and for tags
/// outside the enumeration.
pub open spec fn spec_kind_from_tag(tag: u32) -> Option<ValueKind> {
    if tag == 1 {
        Some(ValueKind::Integer)
    } else if tag == 2 {
        Some(ValueKind::Float)
    } else if tag == 3 {
        Some(ValueKind::Bool)
    } else if tag == 4 {
        Some(ValueKind::String)
    } else if tag == 5 {
        Some(ValueKind::Path)
    } else if tag == 6 {
        Some(ValueKind::Null)
    } else if tag == 7 {
        Some(ValueKind::AttrSet)
    } else if tag == 8 {
        Some(ValueKind::List)
    } else if tag == 9 {
        Some(ValueKind::Function)
    } else if tag == 10 {
        Some(ValueKind::External)
    } else {
        None
    }
}

/// Maps an engine kind tag to the abstract kind it denotes.
pub fn kind_from_tag(tag: u32) -> (r: Option<ValueKind>)
    ensures
        r == spec_kind_from_tag(tag),
{
    if tag == 1 {
        Some(ValueKind::Integer)
    } else if tag == 2 {
        Some(ValueKind::Float)
    } else if tag == 3 {
        Some(ValueKind::Bool)
    } else if tag == 4 {
        Some(ValueKind::String)
    } else if tag == 5 {
        Some(ValueKind::Path)
    } else if tag == 6 {
        Some(ValueKind::Null)
    } else if tag == 7 {
        Some(ValueKind::AttrSet)
    } else if tag == 8 {
        Some(ValueKind::List)
    } else if tag == 9 {
        Some(ValueKind::Function)
    } else if tag == 10 {
        Some(ValueKind::External)
    } else {
        None
    }
}

/// The display name of a kind, as it appears in error messages.
pub open spec fn spec_kind_name(k: ValueKind) -> Seq<char> {
    match k {
        ValueKind::Integer => "Integer"@,
        ValueKind::Float => "Float"@,
        ValueKind::Bool => "Bool"@,
        ValueKind::String => "String"@,
        ValueKind::Path => "Path"@,
        ValueKind::Null => "Null"@,
        ValueKind::AttrSet => "AttrSet"@,
        ValueKind::List => "List"@,
        ValueKind::Function => "Function"@,
        ValueKind::External => "External"@,
    }
}

/// The display name of a kind.
pub fn kind_name(k: ValueKind) -> (r: &'static str)
    ensures
        r@ == spec_kind_name(k),
{
    match k {
        ValueKind::Integer => "Integer",
        ValueKind::Float => "Float",
        ValueKind::Bool => "Bool",
        ValueKind::String => "String",
        ValueKind::Path => "Path",
        ValueKind::Null => "Null",
        ValueKind::AttrSet => "AttrSet",
        ValueKind::List => "List",
        ValueKind::Function => "Function",
        ValueKind::External => "External",
    }
}

/// The lower-case name of a kind, used for the "expected" side of a
/// wrong-kind error message.
pub open spec fn spec_kind_name_lower(k: ValueKind) -> Seq<char> {
    match k {
        ValueKind::Integer => "integer"@,
        ValueKind::Float => "float"@,
        ValueKind::Bool => "bool"@,
        ValueKind::String => "string"@,
        ValueKind::Path => "path"@,
        ValueKind::Null => "null"@,
        ValueKind::AttrSet => "attribute set"@,
        ValueKind::List => "list"@,
        ValueKind::Function => "function"@,
        ValueKind::External => "external value"@,
    }
}

/// The lower-case name of a kind.
pub fn kind_name_lower(k: ValueKind) -> (r: &'static str)
    ensures
        r@ == spec_kind_name_lower(k),
{
    match k {
        ValueKind::Integer => "integer",
        ValueKind::Float => "float",
        ValueKind::Bool => "bool",
        ValueKind::String => "string",
        ValueKind::Path => "path",
        ValueKind::Null => "null",
        ValueKind::AttrSet => "attribute set",
        ValueKind::List => "list",
        ValueKind::Function => "function",
        ValueKind::External => "external value",
    }
}

} // verus!
