use vstd::prelude::*;
use vstd::string::StringExecFns;

use crate::argument::{all_mappable, first_unmappable, map_arguments, spec_map_arguments,
    ConcreteArguments};
use crate::error::BridgeError;
use crate::stream::{projected_item, ConcreteItem, ErasedItem};
use crate::value::ErasedValue;

verus! {

// The connection adapter presents one backend-agnostic connection over one
// concrete connection. Lifecycle, transaction control and flushing are
// plain delegations to the concrete driver and live with the unverified
// runtime around this library; what is decided here is how a statement is
// submitted: its bound arguments mapped, its persistence chosen, and its
// result items projected one by one (see the streaming functions).

/// The name of the backend this adapter bridges.
pub fn backend_name() -> (r: String)
    ensures
        r@ == "SQLite"@,
{
    String::from_str("SQLite")
}

/// One execution request as handed to the concrete driver's worker: the
/// statement text, its mapped arguments if any, whether the statement is
/// persistent (eligible for prepared-statement reuse), and the capacity of
/// the bounded delivery channel.
#[derive(Debug, Clone, PartialEq)]
pub struct ExecuteRequest {
    pub sql: String,
    pub arguments: Option<ConcreteArguments>,
    pub persistent: bool,
    pub channel_capacity: usize,
}

/// Plans one statement's execution: with arguments present the statement is
/// marked persistent and the arguments are mapped to their concrete form;
/// without arguments it is executed one-shot. Fails exactly where the
/// argument mapper fails, with its structured error; the statement text and
/// the channel capacity are handed through unmodified.
pub fn plan_execute(
    sql: String,
    arguments: Option<Vec<ErasedValue>>,
    channel_capacity: usize,
) -> (r: Result<ExecuteRequest, BridgeError>)
    ensures
        (r matches Ok(req) ==> {
            &&& req.sql == sql
            &&& req.channel_capacity == channel_capacity
            &&& req.persistent == (arguments is Some)
            &&& (arguments is None ==> req.arguments is None)
        }),
        arguments is None ==> r is Ok,
        (arguments matches Some(args) ==> {
            &&& all_mappable(args@) ==> (r matches Ok(req) && (req.arguments matches Some(ca)
                && ca.values@ == spec_map_arguments(args@)))
            &&& (r matches Err(e) ==> (exists|i: int|
                first_unmappable(args@, i) && ((#[trigger] args@[i]) matches
                    ErasedValue::Unknown(tag)
                    && (e matches BridgeError::UnsupportedArgumentKind(d) && d@ == tag@))))
        }),
{
    match arguments {
        None => Ok(ExecuteRequest {
            sql,
            arguments: None,
            persistent: false,
            channel_capacity,
        }),
        Some(args) => {
            match map_arguments(args) {
                Ok(ca) => Ok(ExecuteRequest {
                    sql,
                    arguments: Some(ca),
                    persistent: true,
                    channel_capacity,
                }),
                Err(e) => Err(e),
            }
        },
    }
}

/// Law (streaming interleaving): projection never reorders and never
/// changes an item's sort — the erased image of a summary is a summary and
/// of a row a row, so a batch that yields a summary and then its rows is
/// delivered as that summary first and then each row, in fetch order.
pub proof fn lemma_projection_keeps_sort(
    cols: Seq<crate::row::ConcreteColumn>,
    item: ConcreteItem,
    out: ErasedItem,
)
    requires
        projected_item(cols, item, out),
    ensures
        item is Summary <==> out is Summary,
        item is Row <==> out is Row,
{
}

} // verus!
