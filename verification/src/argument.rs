use vstd::prelude::*;

use crate::error::BridgeError;
use crate::ieee_bits::{
    double_is_finite, double_scaled, double_sign, lemma_widen_real_exact, real_is_finite,
    real_scaled, real_sign, spec_widen_real, widen_real,
};
use crate::value::{ConcreteValue, ErasedValue};

verus! {

/// The ordered bound arguments of one statement, in the backend's native
/// representation.
#[derive(Debug, Clone, PartialEq)]
pub struct ConcreteArguments {
    pub values: Vec<ConcreteValue>,
}

/// The concrete counterpart of one erased argument value; `None` exactly
/// for kinds outside the supported taxonomy. Small integers widen to the
/// backend's native signed integer, big integers map to its 64-bit integer,
/// single-width floats widen exactly to its double-width float, and text
/// and blob buffers pass through unchanged.
pub open spec fn spec_map_argument(v: ErasedValue) -> Option<ConcreteValue> {
    match v {
        ErasedValue::Null => Some(ConcreteValue::Null),
        ErasedValue::SmallInt(i) => Some(ConcreteValue::Int(i as i32)),
        ErasedValue::Integer(i) => Some(ConcreteValue::Int(i)),
        ErasedValue::BigInt(i) => Some(ConcreteValue::Int64(i)),
        ErasedValue::Real(b) => Some(ConcreteValue::Double(spec_widen_real(b))),
        ErasedValue::Double(b) => Some(ConcreteValue::Double(b)),
        ErasedValue::Text(t) => Some(ConcreteValue::Text(t)),
        ErasedValue::Blob(b) => Some(ConcreteValue::Blob(b)),
        ErasedValue::Unknown(_) => None,
    }
}

/// Every value of the sequence has a concrete counterpart.
pub open spec fn all_mappable(s: Seq<ErasedValue>) -> bool {
    forall|i: int| 0 <= i < s.len() ==> spec_map_argument(#[trigger] s[i]) is Some
}

/// The values of the sequence up to (excluding) `n` all have concrete
/// counterparts.
pub open spec fn mappable_prefix(s: Seq<ErasedValue>, n: int) -> bool {
    forall|i: int| 0 <= i < n ==> spec_map_argument(#[trigger] s[i]) is Some
}

/// The element-wise concrete image of a fully mappable sequence.
pub open spec fn spec_map_arguments(s: Seq<ErasedValue>) -> Seq<ConcreteValue> {
    Seq::new(s.len(), |i: int| spec_map_argument(s[i]).unwrap())
}

/// Position `i` holds the first value without a concrete counterpart.
pub open spec fn first_unmappable(s: Seq<ErasedValue>, i: int) -> bool {
    &&& 0 <= i < s.len()
    &&& spec_map_argument(s[i]) is None
    &&& mappable_prefix(s, i)
}

/// The argument mapper, for one value: the concrete counterpart of an
/// erased value, or — for a kind outside the supported taxonomy — a
/// structured `UnsupportedArgumentKind` error carrying the kind's
/// description, never an unconditional abort.
pub fn map_argument(v: ErasedValue) -> (r: Result<ConcreteValue, BridgeError>)
    ensures
        match spec_map_argument(v) {
            Some(c) => r == Ok::<ConcreteValue, BridgeError>(c),
            None => (r matches Err(e) && (e matches BridgeError::UnsupportedArgumentKind(d)
                && (v matches ErasedValue::Unknown(tag) && d@ == tag@))),
        },
{
    match v {
        ErasedValue::Null => Ok(ConcreteValue::Null),
        ErasedValue::SmallInt(i) => Ok(ConcreteValue::Int(i as i32)),
        ErasedValue::Integer(i) => Ok(ConcreteValue::Int(i)),
        ErasedValue::BigInt(i) => Ok(ConcreteValue::Int64(i)),
        ErasedValue::Real(b) => Ok(ConcreteValue::Double(widen_real(b))),
        ErasedValue::Double(b) => Ok(ConcreteValue::Double(b)),
        ErasedValue::Text(t) => Ok(ConcreteValue::Text(t)),
        ErasedValue::Blob(b) => Ok(ConcreteValue::Blob(b)),
        ErasedValue::Unknown(tag) => Err(BridgeError::UnsupportedArgumentKind(tag)),
    }
}

/// The argument mapper: converts a caller-supplied ordered sequence of
/// erased values into the backend's native bound arguments, in order. Fails
/// on the first value whose kind has no concrete mapping, with that kind's
/// structured error; succeeds — it is owed success — whenever every kind is
/// in the supported taxonomy.
#[verifier::loop_isolation(false)]
pub fn map_arguments(args: Vec<ErasedValue>) -> (r: Result<ConcreteArguments, BridgeError>)
    ensures
        all_mappable(args@) ==> r is Ok,
        (r matches Ok(c) ==> all_mappable(args@) && c.values@ == spec_map_arguments(args@)),
        (r matches Err(e) ==> (exists|i: int|
            first_unmappable(args@, i) && (#[trigger] args@[i] matches ErasedValue::Unknown(tag)
                && (e matches BridgeError::UnsupportedArgumentKind(d) && d@ == tag@)))),
{
    let ghost orig: Seq<ErasedValue> = args@;
    let mut rest = args;
    let mut vals: Vec<ConcreteValue> = Vec::new();
    while rest.len() > 0
        invariant
            vals@.len() + rest@.len() == orig.len(),
            rest@ =~= orig.skip(vals@.len() as int),
            mappable_prefix(orig, vals@.len() as int),
            vals@ =~= spec_map_arguments(orig.take(vals@.len() as int)),
        decreases rest@.len(),
    {
        let ghost i: int = vals@.len() as int;
        let v = rest.remove(0);
        assert(v == orig[i]);
        match map_argument(v) {
            Ok(c) => {
                vals.push(c);
                assert(vals@ =~= spec_map_arguments(orig.take(i + 1)));
            },
            Err(e) => {
                proof {
                    assert(first_unmappable(orig, i) && (orig[i] matches ErasedValue::Unknown(tag)
                        && (e matches BridgeError::UnsupportedArgumentKind(d) && d@ == tag@)));
                    assert(!all_mappable(orig));
                }
                return Err(e);
            },
        }
    }
    proof {
        assert(orig.take(orig.len() as int) =~= orig);
        assert(all_mappable(orig));
    }
    Ok(ConcreteArguments { values: vals })
}

/// Law (totality of argument mapping): every kind in the supported erased
/// taxonomy — every tag but the future catch-all — maps to a concrete
/// argument, and the logical value is preserved: integers keep their
/// numeric value within the (equal or wider) target width, text and blob
/// keep their bytes exactly, double-width float patterns pass through
/// unchanged, and single-width float patterns are widened exactly, keeping
/// sign, finiteness class and magnitude.
pub proof fn lemma_argument_mapping_total(v: ErasedValue)
    requires
        !(v is Unknown),
    ensures
        spec_map_argument(v) is Some,
        (v is Null ==> spec_map_argument(v) == Some(ConcreteValue::Null)),
        (v matches ErasedValue::SmallInt(i)
            ==> (spec_map_argument(v) matches Some(ConcreteValue::Int(c)) && c as int == i as int)),
        (v matches ErasedValue::Integer(i)
            ==> (spec_map_argument(v) matches Some(ConcreteValue::Int(c)) && c as int == i as int)),
        (v matches ErasedValue::BigInt(i)
            ==> (spec_map_argument(v) matches Some(ConcreteValue::Int64(c)) && c == i)),
        (v matches ErasedValue::Text(t)
            ==> (spec_map_argument(v) matches Some(ConcreteValue::Text(u)) && u@ == t@)),
        (v matches ErasedValue::Blob(b)
            ==> (spec_map_argument(v) matches Some(ConcreteValue::Blob(u)) && u@ == b@)),
        (v matches ErasedValue::Double(d)
            ==> spec_map_argument(v) == Some(ConcreteValue::Double(d))),
        (v matches ErasedValue::Real(b)
            ==> (spec_map_argument(v) matches Some(ConcreteValue::Double(d))
                && double_sign(d) == real_sign(b) as u64
                && (real_is_finite(b) ==> double_is_finite(d)
                    && double_scaled(d) == real_scaled(b)))),
{
    if let ErasedValue::Real(b) = v {
        lemma_widen_real_exact(b);
    }
}

} // verus!
