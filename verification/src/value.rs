use vstd::prelude::*;

use crate::types::ErasedKind;

verus! {

/// An erased value: one bound argument or one fetched cell, tagged over the
/// erased kind taxonomy.
///
/// The taxonomy is open for forward compatibility: `Unknown` stands for any
/// kind a future revision may add, carrying that kind's description. Every
/// conversion site treats `Unknown` as a reportable error, never as a
/// silent default and never as an unconditional abort.
///
/// Floating-point values travel as their IEEE 754 bit patterns (`Real` a
/// single-width pattern, `Double` a double-width one): the bridge moves
/// them, it never computes with them.
#[derive(Debug, Clone, PartialEq)]
pub enum ErasedValue {
    Null,
    SmallInt(i16),
    Integer(i32),
    BigInt(i64),
    Real(u32),
    Double(u64),
    Text(String),
    Blob(Vec<u8>),
    Unknown(String),
}

/// The erased kind a value's tag corresponds to; `None` for a kind outside
/// the supported taxonomy.
pub open spec fn value_kind(v: ErasedValue) -> Option<ErasedKind> {
    match v {
        ErasedValue::Null => Some(ErasedKind::Null),
        ErasedValue::SmallInt(_) => Some(ErasedKind::SmallInt),
        ErasedValue::Integer(_) => Some(ErasedKind::Integer),
        ErasedValue::BigInt(_) => Some(ErasedKind::BigInt),
        ErasedValue::Real(_) => Some(ErasedKind::Real),
        ErasedValue::Double(_) => Some(ErasedKind::Double),
        ErasedValue::Text(_) => Some(ErasedKind::Text),
        ErasedValue::Blob(_) => Some(ErasedKind::Blob),
        ErasedValue::Unknown(_) => None,
    }
}

/// A concrete value as the SQLite-style backend holds it: one storage class
/// per variant. Cells fetched from the backend and bound arguments handed
/// to it share this shape. `Double` carries a double-width IEEE 754 bit
/// pattern.
#[derive(Debug, Clone, PartialEq)]
pub enum ConcreteValue {
    Null,
    Int(i32),
    Int64(i64),
    Double(u64),
    Text(String),
    Blob(Vec<u8>),
}

} // verus!
