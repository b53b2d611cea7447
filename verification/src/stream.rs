use vstd::prelude::*;

use crate::error::BridgeError;
use crate::row::{first_unprojectable, project_row, row_mappable, spec_project_row, ConcreteColumn,
    ConcreteRow, ErasedRow};
use crate::summary::{map_summary, spec_map_summary, ConcreteSummary, ErasedSummary};

verus! {

// Query execution is request/response streamed: the concrete driver's
// single-writer worker executes the statement against the live connection
// and emits a finite ordered sequence of items over a bounded channel; the
// consumer projects each item lazily, as it arrives, through the row
// projector or the result mapper. The functions here are those per-item
// decisions and their whole-sequence statements; the channel itself, the
// awaiting and the cancellation live with the unverified runtime around
// this library.

/// One item the concrete execution worker emits: a statement's completion
/// summary, or one data row.
#[derive(Debug, Clone, PartialEq)]
pub enum ConcreteItem {
    Summary(ConcreteSummary),
    Row(ConcreteRow),
}

/// One item of the erased result sequence a caller consumes.
#[derive(Debug, Clone, PartialEq)]
pub enum ErasedItem {
    Summary(ErasedSummary),
    Row(ErasedRow),
}

/// One event the consumer sees on the delivery channel: an item, or the
/// backend's own failure, carried with its message. A broken channel is
/// reported by the runtime as a failure event too — never as a silent end
/// of the sequence.
#[derive(Debug, Clone, PartialEq)]
pub enum StreamEvent {
    Item(ConcreteItem),
    Failure(String),
}

/// A row item's cells are positionally aligned with the result set's
/// column table.
pub open spec fn event_wf(cols: Seq<ConcreteColumn>, ev: StreamEvent) -> bool {
    ev matches StreamEvent::Item(ConcreteItem::Row(r)) ==> r.values@.len() == cols.len()
}

/// Every event of the sequence is aligned with the column table.
pub open spec fn events_wf(cols: Seq<ConcreteColumn>, evs: Seq<StreamEvent>) -> bool {
    forall|i: int| 0 <= i < evs.len() ==> event_wf(cols, #[trigger] evs[i])
}

/// The item has an erased image: a summary always, a row exactly when all
/// its cells project.
pub open spec fn item_projects(cols: Seq<ConcreteColumn>, item: ConcreteItem) -> bool {
    match item {
        ConcreteItem::Summary(_) => true,
        ConcreteItem::Row(r) => row_mappable(cols, r.values@),
    }
}

/// `out` is the erased image of `item`: a summary mapped by the result
/// mapper, a row projected cell by cell by the row projector.
pub open spec fn projected_item(cols: Seq<ConcreteColumn>, item: ConcreteItem, out: ErasedItem) -> bool {
    match item {
        ConcreteItem::Summary(s) => out == ErasedItem::Summary(spec_map_summary(s)),
        ConcreteItem::Row(r) => (out matches ErasedItem::Row(er)
            && er.values@ == spec_project_row(cols, r.values@)),
    }
}

/// The event projects to an erased item (it is an item and converts).
pub open spec fn event_ok(cols: Seq<ConcreteColumn>, ev: StreamEvent) -> bool {
    ev matches StreamEvent::Item(item) && item_projects(cols, item)
}

/// Every event of the sequence projects.
pub open spec fn all_events_ok(cols: Seq<ConcreteColumn>, evs: Seq<StreamEvent>) -> bool {
    forall|i: int| 0 <= i < evs.len() ==> event_ok(cols, #[trigger] evs[i])
}

/// The error a failing event turns into: a failure event's message becomes
/// a backend error, verbatim; a row that does not project becomes the
/// decode error naming the first failing column.
pub open spec fn event_error_matches(
    cols: Seq<ConcreteColumn>,
    ev: StreamEvent,
    e: BridgeError,
) -> bool {
    match ev {
        StreamEvent::Failure(msg) => e == BridgeError::Backend(msg),
        StreamEvent::Item(ConcreteItem::Summary(_)) => false,
        StreamEvent::Item(ConcreteItem::Row(r)) => exists|i: int|
            first_unprojectable(cols, r.values@, i)
                && (e matches BridgeError::ColumnDecode { index, .. } && index@ == (
            #[trigger] cols[i]).name@),
    }
}

/// Projects one item as it arrives: a summary through the result mapper, a
/// row through the row projector. This is the per-item step of the lazy
/// result sequence — items are converted one by one, never buffered in
/// full before the first is delivered.
pub fn project_item(cols: &Vec<ConcreteColumn>, item: ConcreteItem) -> (r: Result<
    ErasedItem,
    BridgeError,
>)
    requires
        event_wf(cols@, StreamEvent::Item(item)),
    ensures
        item_projects(cols@, item) ==> (r matches Ok(out) && projected_item(cols@, item, out)),
        !item_projects(cols@, item) ==> (r matches Err(e)
            && event_error_matches(cols@, StreamEvent::Item(item), e)),
{
    match item {
        ConcreteItem::Summary(s) => Ok(ErasedItem::Summary(map_summary(s))),
        ConcreteItem::Row(r) => {
            match project_row(cols, r) {
                Ok(er) => Ok(ErasedItem::Row(er)),
                Err(e) => Err(e),
            }
        },
    }
}

/// Projects one channel event: an item converts as it arrives, a backend
/// failure surfaces verbatim as an error. An error returned here is the
/// final item of the statement's sequence: the consumer delivers it and
/// stops; items already delivered remain valid.
pub fn project_event(cols: &Vec<ConcreteColumn>, ev: StreamEvent) -> (r: Result<
    ErasedItem,
    BridgeError,
>)
    requires
        event_wf(cols@, ev),
    ensures
        event_ok(cols@, ev) ==> (ev matches StreamEvent::Item(item) && (r matches Ok(out)
            && projected_item(cols@, item, out))),
        !event_ok(cols@, ev) ==> (r matches Err(e) && event_error_matches(cols@, ev, e)),
{
    match ev {
        StreamEvent::Item(item) => project_item(cols, item),
        StreamEvent::Failure(msg) => Err(BridgeError::Backend(msg)),
    }
}

/// Projects a whole event sequence in arrival order, stopping after the
/// first failure, which ends the output as its final entry. One erased
/// item per event, each of the same sort as its event and at the same
/// position: a summary stays a summary, a row stays a row, and the order
/// is exactly the order the worker emitted.
#[verifier::loop_isolation(false)]
pub fn project_events(cols: &Vec<ConcreteColumn>, events: Vec<StreamEvent>) -> (out: Vec<
    Result<ErasedItem, BridgeError>,
>)
    requires
        events_wf(cols@, events@),
    ensures
        out@.len() <= events@.len(),
        all_events_ok(cols@, events@) ==> out@.len() == events@.len(),
        out@.len() < events@.len() ==> (out@.len() >= 1 && !event_ok(
            cols@,
            events@[out@.len() - 1],
        )),
        forall|i: int| 0 <= i < out@.len() - 1 ==> event_ok(cols@, #[trigger] events@[i]),
        forall|i: int|
            0 <= i < out@.len() && event_ok(cols@, #[trigger] events@[i]) ==> (
            events@[i] matches StreamEvent::Item(item) && (out@[i] matches Ok(o)
                && projected_item(cols@, item, o))),
        forall|i: int|
            0 <= i < out@.len() && !event_ok(cols@, #[trigger] events@[i]) ==> (
            out@[i] matches Err(e) && event_error_matches(cols@, events@[i], e)),
{
    let ghost orig: Seq<StreamEvent> = events@;
    let mut rest = events;
    let mut out: Vec<Result<ErasedItem, BridgeError>> = Vec::new();
    while rest.len() > 0
        invariant
            out@.len() + rest@.len() == orig.len(),
            rest@ =~= orig.skip(out@.len() as int),
            forall|i: int| 0 <= i < out@.len() ==> event_ok(cols@, #[trigger] orig[i]),
            forall|i: int|
                0 <= i < out@.len() ==> (orig[i] matches StreamEvent::Item(item)
                    && ((#[trigger] out@[i]) matches Ok(o) && projected_item(cols@, item, o))),
        decreases rest@.len(),
    {
        let ghost i: int = out@.len() as int;
        let ev = rest.remove(0);
        assert(ev == orig[i]);
        match project_event(cols, ev) {
            Ok(it) => {
                out.push(Ok(it));
            },
            Err(e) => {
                out.push(Err(e));
                return out;
            },
        }
    }
    out
}

/// What the consumer has decided after one event while waiting for the
/// first row of a statement: keep consuming (a summary is ignored), or
/// settle with the final outcome.
#[derive(Debug, PartialEq)]
pub enum OptionalOutcome {
    Pending,
    Settled(Result<Option<ErasedRow>, BridgeError>),
}

/// Takes the consumer's decision on one event while waiting for the first
/// row: a summary is ignored and consumption goes on; the first row settles
/// the fetch with that row projected (or its decode error); a backend
/// failure settles it with the failure. Nothing past the settling event is
/// ever consumed.
pub fn fetch_optional_step(cols: &Vec<ConcreteColumn>, ev: StreamEvent) -> (r: OptionalOutcome)
    requires
        event_wf(cols@, ev),
    ensures
        (ev matches StreamEvent::Item(ConcreteItem::Summary(_)) <==> r is Pending),
        (ev matches StreamEvent::Failure(msg) ==> r == OptionalOutcome::Settled(
            Err::<Option<ErasedRow>, BridgeError>(BridgeError::Backend(msg)),
        )),
        (ev matches StreamEvent::Item(ConcreteItem::Row(crow)) ==> {
            &&& (row_mappable(cols@, crow.values@) ==> (r matches OptionalOutcome::Settled(res)
                && (res matches Ok(orow) && (orow matches Some(er)
                && er.values@ == spec_project_row(cols@, crow.values@)))))
            &&& (!row_mappable(cols@, crow.values@) ==> (r matches OptionalOutcome::Settled(res)
                && (res matches Err(e) && event_error_matches(cols@, ev, e))))
        }),
{
    match ev {
        StreamEvent::Item(ConcreteItem::Summary(_)) => OptionalOutcome::Pending,
        StreamEvent::Item(ConcreteItem::Row(crow)) => {
            match project_row(cols, crow) {
                Ok(er) => OptionalOutcome::Settled(Ok(Some(er))),
                Err(e) => OptionalOutcome::Settled(Err(e)),
            }
        },
        StreamEvent::Failure(msg) => OptionalOutcome::Settled(Err(BridgeError::Backend(msg))),
    }
}

/// Position `i` holds the event that settles a first-row fetch: the first
/// event that is not a summary.
pub open spec fn first_settling(evs: Seq<StreamEvent>, i: int) -> bool {
    &&& 0 <= i < evs.len()
    &&& !(evs[i] matches StreamEvent::Item(ConcreteItem::Summary(_)))
    &&& forall|j: int|
        0 <= j < i ==> (#[trigger] evs[j]) matches StreamEvent::Item(ConcreteItem::Summary(_))
}

/// Fetches at most the first row of an event sequence: summaries before it
/// are ignored, nothing after the settling event is consumed, and a
/// sequence that completes with no row yields no row. A backend failure met
/// before any row surfaces verbatim.
#[verifier::loop_isolation(false)]
pub fn fetch_optional_scan(cols: &Vec<ConcreteColumn>, events: Vec<StreamEvent>) -> (r: Result<
    Option<ErasedRow>,
    BridgeError,
>)
    requires
        events_wf(cols@, events@),
    ensures
        (forall|i: int|
            0 <= i < events@.len() ==> (#[trigger] events@[i]) matches StreamEvent::Item(
                ConcreteItem::Summary(_),
            )) ==> r == Ok::<Option<ErasedRow>, BridgeError>(None),
        forall|i: int|
            first_settling(events@, i) ==> {
                &&& ((#[trigger] events@[i]) matches StreamEvent::Failure(msg) ==> r == Err::<
                    Option<ErasedRow>,
                    BridgeError,
                >(BridgeError::Backend(msg)))
                &&& (events@[i] matches StreamEvent::Item(ConcreteItem::Row(crow)) ==> {
                    &&& (row_mappable(cols@, crow.values@) ==> (r matches Ok(orow)
                        && (orow matches Some(er)
                        && er.values@ == spec_project_row(cols@, crow.values@))))
                    &&& (!row_mappable(cols@, crow.values@) ==> (r matches Err(e)
                        && event_error_matches(cols@, events@[i], e)))
                })
            },
{
    let ghost orig: Seq<StreamEvent> = events@;
    let mut rest = events;
    let ghost mut n: int = 0;
    while rest.len() > 0
        invariant
            0 <= n,
            n + rest@.len() == orig.len(),
            rest@ =~= orig.skip(n),
            forall|j: int|
                0 <= j < n ==> (#[trigger] orig[j]) matches StreamEvent::Item(
                    ConcreteItem::Summary(_),
                ),
        decreases rest@.len(),
    {
        let ev = rest.remove(0);
        assert(ev == orig[n]);
        match fetch_optional_step(cols, ev) {
            OptionalOutcome::Pending => {
                proof {
                    n = n + 1;
                }
            },
            OptionalOutcome::Settled(res) => {
                proof {
                    assert(first_settling(orig, n));
                    assert(forall|i: int| first_settling(orig, i) ==> i == n);
                }
                return res;
            },
        }
    }
    proof {
        assert(forall|i: int| !first_settling(orig, i));
    }
    Ok(None)
}

} // verus!
