use vstd::prelude::*;
use vstd::string::StringExecFns;

use crate::error::BridgeError;

verus! {

/// The type descriptors a SQLite-style backend reports for its columns and
/// values. They are owned by the concrete driver and immutable once
/// produced; the bridge only reads them.
#[derive(Debug, Clone, Copy, PartialEq, Eq, Structural)]
pub enum DataType {
    Null,
    Int,
    Int64,
    Float,
    Text,
    Blob,
    Numeric,
    Bool,
    Date,
    Time,
    Datetime,
}

/// The erased, backend-neutral type kinds shared across all backends. The
/// taxonomy is open: future revisions may add kinds, so every conversion
/// site keeps an explicit failure path instead of assuming exhaustiveness.
#[derive(Debug, Clone, Copy, PartialEq, Eq, Structural)]
pub enum ErasedKind {
    Null,
    SmallInt,
    Integer,
    BigInt,
    Real,
    Double,
    Text,
    Blob,
}

/// The concrete types with an erased equivalent: exactly those the backend
/// produces for ordinary column and value data.
pub open spec fn bridgeable(t: DataType) -> bool {
    match t {
        DataType::Null
        | DataType::Int
        | DataType::Int64
        | DataType::Float
        | DataType::Text
        | DataType::Blob => true,
        _ => false,
    }
}

/// The erased kind each concrete type maps to; `None` exactly where the
/// type has no erased equivalent.
pub open spec fn spec_to_erased(t: DataType) -> Option<ErasedKind> {
    match t {
        DataType::Null => Some(ErasedKind::Null),
        DataType::Int => Some(ErasedKind::Integer),
        DataType::Int64 => Some(ErasedKind::BigInt),
        DataType::Float => Some(ErasedKind::Double),
        DataType::Text => Some(ErasedKind::Text),
        DataType::Blob => Some(ErasedKind::Blob),
        _ => None,
    }
}

/// The description of a concrete type, carried in diagnostics.
pub open spec fn spec_type_description(t: DataType) -> Seq<char> {
    match t {
        DataType::Null => "Null"@,
        DataType::Int => "Int"@,
        DataType::Int64 => "Int64"@,
        DataType::Float => "Float"@,
        DataType::Text => "Text"@,
        DataType::Blob => "Blob"@,
        DataType::Numeric => "Numeric"@,
        DataType::Bool => "Bool"@,
        DataType::Date => "Date"@,
        DataType::Time => "Time"@,
        DataType::Datetime => "Datetime"@,
    }
}

/// The concrete type's description, for diagnostics.
pub fn describe_type(t: DataType) -> (r: String)
    ensures
        r@ == spec_type_description(t),
{
    match t {
        DataType::Null => String::from_str("Null"),
        DataType::Int => String::from_str("Int"),
        DataType::Int64 => String::from_str("Int64"),
        DataType::Float => String::from_str("Float"),
        DataType::Text => String::from_str("Text"),
        DataType::Blob => String::from_str("Blob"),
        DataType::Numeric => String::from_str("Numeric"),
        DataType::Bool => String::from_str("Bool"),
        DataType::Date => String::from_str("Date"),
        DataType::Time => String::from_str("Time"),
        DataType::Datetime => String::from_str("Datetime"),
    }
}

/// The type bridge: maps a concrete type descriptor to its erased kind.
///
/// Total over the types the backend produces for ordinary column and value
/// data; every other concrete type is reported as `UnsupportedType` with
/// its description — never silently defaulted. The conversion is pure:
/// the result is a function of the descriptor alone.
pub fn to_erased_kind(t: DataType) -> (r: Result<ErasedKind, BridgeError>)
    ensures
        match spec_to_erased(t) {
            Some(k) => r == Ok::<ErasedKind, BridgeError>(k),
            None => (r matches Err(e) && (e matches BridgeError::UnsupportedType(d)
                && d@ == spec_type_description(t))),
        },
{
    match t {
        DataType::Null => Ok(ErasedKind::Null),
        DataType::Int => Ok(ErasedKind::Integer),
        DataType::Int64 => Ok(ErasedKind::BigInt),
        DataType::Float => Ok(ErasedKind::Double),
        DataType::Text => Ok(ErasedKind::Text),
        DataType::Blob => Ok(ErasedKind::Blob),
        _ => Err(BridgeError::UnsupportedType(describe_type(t))),
    }
}

/// Law: the type bridge is total over the bridgeable concrete types. It is
/// also stable: the mapped kind is a function of the concrete type alone,
/// so the same concrete type always yields the same erased kind.
pub proof fn lemma_type_bridge_total(t: DataType)
    requires
        bridgeable(t),
    ensures
        spec_to_erased(t) is Some,
{
}

/// Law: a concrete type with no erased equivalent is reported as
/// `UnsupportedType` — the bridge returns the structured error, never a
/// crash and never a default kind.
pub proof fn lemma_unsupported_type_reported(t: DataType)
    requires
        !bridgeable(t),
    ensures
        spec_to_erased(t) is None,
{
}

} // verus!
