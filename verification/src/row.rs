use vstd::prelude::*;
use vstd::string::StringExecFns;

use crate::error::BridgeError;
use crate::types::{describe_type, spec_to_erased, spec_type_description, to_erased_kind, DataType,
    ErasedKind};
use crate::value::{value_kind, ConcreteValue, ErasedValue};

verus! {

/// One result-set field as the backend reports it: 0-based ordinal, name
/// and concrete type. Ordinals are stable and unique within a result set.
#[derive(Debug, Clone, PartialEq)]
pub struct ConcreteColumn {
    pub ordinal: usize,
    pub name: String,
    pub type_info: DataType,
}

/// One result-set field in erased form.
#[derive(Debug, Clone, PartialEq)]
pub struct ErasedColumn {
    pub ordinal: usize,
    pub name: String,
    pub kind: ErasedKind,
}

/// One fetched record: the ordered cell values, positionally aligned with
/// the result set's column table. The column table itself is shared across
/// all rows of one result set, not copied into each row.
#[derive(Debug, Clone, PartialEq)]
pub struct ConcreteRow {
    pub values: Vec<ConcreteValue>,
}

/// One fetched record in erased form, positionally aligned with the erased
/// column table of its result set.
#[derive(Debug, Clone, PartialEq)]
pub struct ErasedRow {
    pub values: Vec<ErasedValue>,
}

/// The erased form of a column: its type bridged to the erased kind;
/// `None` exactly where the concrete type has no erased equivalent.
pub open spec fn spec_to_erased_column(c: ConcreteColumn) -> Option<ErasedColumn> {
    match spec_to_erased(c.type_info) {
        Some(k) => Some(ErasedColumn { ordinal: c.ordinal, name: c.name, kind: k }),
        None => None,
    }
}

/// Converts one column's metadata, bridging its type. A type with no
/// erased equivalent is reported as a decode failure identifying the
/// column by name and carrying the type's description.
pub fn to_erased_column(c: &ConcreteColumn) -> (r: Result<ErasedColumn, BridgeError>)
    ensures
        match spec_to_erased_column(*c) {
            Some(ec) => r == Ok::<ErasedColumn, BridgeError>(ec),
            None => (r matches Err(e) && (e matches BridgeError::ColumnDecode { index, message }
                && index@ == c.name@ && message@ == spec_type_description(c.type_info))),
        },
{
    match to_erased_kind(c.type_info) {
        Ok(k) => Ok(ErasedColumn { ordinal: c.ordinal, name: c.name.clone(), kind: k }),
        Err(_) => Err(BridgeError::ColumnDecode {
            index: c.name.clone(),
            message: describe_type(c.type_info),
        }),
    }
}

/// The decoded erased value of one cell, given its column's erased kind;
/// `None` where the cell's storage class does not fit the kind. A SQL NULL
/// cell decodes to the erased null whatever the column's kind.
pub open spec fn spec_decode_cell(kind: ErasedKind, cell: ConcreteValue) -> Option<ErasedValue> {
    match cell {
        ConcreteValue::Null => Some(ErasedValue::Null),
        ConcreteValue::Int(i) => {
            if kind is Integer {
                Some(ErasedValue::Integer(i))
            } else {
                None
            }
        },
        ConcreteValue::Int64(i) => {
            if kind is BigInt {
                Some(ErasedValue::BigInt(i))
            } else {
                None
            }
        },
        ConcreteValue::Double(b) => {
            if kind is Double {
                Some(ErasedValue::Double(b))
            } else {
                None
            }
        },
        ConcreteValue::Text(t) => {
            if kind is Text {
                Some(ErasedValue::Text(t))
            } else {
                None
            }
        },
        ConcreteValue::Blob(b) => {
            if kind is Blob {
                Some(ErasedValue::Blob(b))
            } else {
                None
            }
        },
    }
}

/// Decodes one cell into the erased value of its column's kind; `None`
/// reports a storage-class mismatch, which the row projector turns into a
/// decode failure naming the column.
pub fn decode_cell(kind: ErasedKind, cell: ConcreteValue) -> (r: Option<ErasedValue>)
    ensures
        r == spec_decode_cell(kind, cell),
{
    match cell {
        ConcreteValue::Null => Some(ErasedValue::Null),
        ConcreteValue::Int(i) => {
            if let ErasedKind::Integer = kind {
                Some(ErasedValue::Integer(i))
            } else {
                None
            }
        },
        ConcreteValue::Int64(i) => {
            if let ErasedKind::BigInt = kind {
                Some(ErasedValue::BigInt(i))
            } else {
                None
            }
        },
        ConcreteValue::Double(b) => {
            if let ErasedKind::Double = kind {
                Some(ErasedValue::Double(b))
            } else {
                None
            }
        },
        ConcreteValue::Text(t) => {
            if let ErasedKind::Text = kind {
                Some(ErasedValue::Text(t))
            } else {
                None
            }
        },
        ConcreteValue::Blob(b) => {
            if let ErasedKind::Blob = kind {
                Some(ErasedValue::Blob(b))
            } else {
                None
            }
        },
    }
}

/// Law: a decoded cell carries its column's kind — the projector never
/// changes a value's kind silently. A SQL NULL decodes to the erased null.
pub proof fn lemma_decoded_cell_kind(kind: ErasedKind, cell: ConcreteValue)
    requires
        spec_decode_cell(kind, cell) is Some,
    ensures
        (spec_decode_cell(kind, cell) matches Some(v)
            && (v is Null || value_kind(v) == Some(kind))),
{
}

/// The erased value of the cell at one column: the column's type bridged,
/// then the cell decoded at that kind; `None` if either step fails.
pub open spec fn spec_project_cell(col: ConcreteColumn, cell: ConcreteValue) -> Option<
    ErasedValue,
> {
    match spec_to_erased(col.type_info) {
        Some(k) => spec_decode_cell(k, cell),
        None => None,
    }
}

/// Every cell of the row projects at its column.
pub open spec fn row_mappable(cols: Seq<ConcreteColumn>, cells: Seq<ConcreteValue>) -> bool {
    forall|i: int|
        0 <= i < cells.len() ==> spec_project_cell(cols[i], #[trigger] cells[i]) is Some
}

/// The cells of the row up to (excluding) `n` all project.
pub open spec fn row_mappable_prefix(
    cols: Seq<ConcreteColumn>,
    cells: Seq<ConcreteValue>,
    n: int,
) -> bool {
    forall|i: int| 0 <= i < n ==> spec_project_cell(cols[i], #[trigger] cells[i]) is Some
}

/// The element-wise erased image of a fully projectable row.
pub open spec fn spec_project_row(cols: Seq<ConcreteColumn>, cells: Seq<ConcreteValue>) -> Seq<
    ErasedValue,
> {
    Seq::new(cells.len(), |i: int| spec_project_cell(cols[i], cells[i]).unwrap())
}

/// Position `i` holds the first cell that does not project.
pub open spec fn first_unprojectable(
    cols: Seq<ConcreteColumn>,
    cells: Seq<ConcreteValue>,
    i: int,
) -> bool {
    &&& 0 <= i < cells.len()
    &&& spec_project_cell(cols[i], cells[i]) is None
    &&& row_mappable_prefix(cols, cells, i)
}

/// The row projector: converts one concrete row into an erased row, cell
/// by cell, re-decoding each cell through the type bridge at its column.
/// Fails — identifying the column by name — on the first cell whose column
/// type cannot be bridged or whose value does not fit the bridged kind;
/// succeeds, it is owed success, whenever every cell projects.
#[verifier::loop_isolation(false)]
pub fn project_row(cols: &Vec<ConcreteColumn>, row: ConcreteRow) -> (r: Result<
    ErasedRow,
    BridgeError,
>)
    requires
        row.values@.len() == cols@.len(),
    ensures
        row_mappable(cols@, row.values@) <==> r is Ok,
        (r matches Ok(er) ==> er.values@ == spec_project_row(cols@, row.values@)),
        (r matches Err(e) ==> (exists|i: int|
            first_unprojectable(cols@, row.values@, i)
                && (e matches BridgeError::ColumnDecode { index, message }
                && index@ == (#[trigger] cols@[i]).name@
                && (spec_to_erased(cols@[i].type_info) is None ==> message@
                    == spec_type_description(cols@[i].type_info))
                && (spec_to_erased(cols@[i].type_info) is Some ==> message@
                    == "value does not fit the column type"@)))),
{
    let ghost orig: Seq<ConcreteValue> = row.values@;
    let mut rest = row.values;
    let mut vals: Vec<ErasedValue> = Vec::new();
    while rest.len() > 0
        invariant
            vals@.len() + rest@.len() == orig.len(),
            rest@ =~= orig.skip(vals@.len() as int),
            row_mappable_prefix(cols@, orig, vals@.len() as int),
            vals@ =~= spec_project_row(cols@, orig.take(vals@.len() as int)).take(
                vals@.len() as int,
            ),
        decreases rest@.len(),
    {
        let ghost i: int = vals@.len() as int;
        let cell = rest.remove(0);
        assert(cell == orig[i]);
        let col = &cols[vals.len()];
        match to_erased_kind(col.type_info) {
            Ok(k) => {
                match decode_cell(k, cell) {
                    Some(v) => {
                        vals.push(v);
                        assert(vals@ =~= spec_project_row(cols@, orig.take(i + 1)).take(i + 1));
                    },
                    None => {
                        proof {
                            assert(first_unprojectable(cols@, orig, i));
                        }
                        return Err(BridgeError::ColumnDecode {
                            index: col.name.clone(),
                            message: String::from_str("value does not fit the column type"),
                        });
                    },
                }
            },
            Err(_) => {
                proof {
                    assert(first_unprojectable(cols@, orig, i));
                }
                return Err(BridgeError::ColumnDecode {
                    index: col.name.clone(),
                    message: describe_type(col.type_info),
                });
            },
        }
    }
    proof {
        assert(orig.take(orig.len() as int) =~= orig);
        assert(vals@ =~= spec_project_row(cols@, orig));
        assert(row_mappable(cols@, orig));
    }
    Ok(ErasedRow { values: vals })
}

/// Converts a whole column table, bridging each type in order: the shared
/// erased column table of one result set, built once and referenced by
/// every row of that set. Fails on the first column whose type cannot be
/// bridged, with that column's decode error.
#[verifier::loop_isolation(false)]
pub fn project_columns(cols: &Vec<ConcreteColumn>) -> (r: Result<Vec<ErasedColumn>, BridgeError>)
    ensures
        (r matches Ok(ecs) ==> (ecs@.len() == cols@.len() && forall|i: int|
            0 <= i < cols@.len() ==> spec_to_erased_column(#[trigger] cols@[i])
                == Some(ecs@[i]))),
        (r matches Err(e) ==> (exists|i: int|
            {
                &&& 0 <= i < cols@.len()
                &&& spec_to_erased_column(#[trigger] cols@[i]) is None
                &&& forall|j: int| 0 <= j < i ==> spec_to_erased_column(#[trigger] cols@[j]) is Some
                &&& (e matches BridgeError::ColumnDecode { index, message } && index@
                    == cols@[i].name@ && message@ == spec_type_description(cols@[i].type_info))
            })),
        (forall|i: int| 0 <= i < cols@.len()
            ==> spec_to_erased_column(#[trigger] cols@[i]) is Some) ==> r is Ok,
{
    let mut out: Vec<ErasedColumn> = Vec::new();
    let mut n: usize = 0;
    while n < cols.len()
        invariant
            out@.len() == n <= cols@.len(),
            forall|i: int| 0 <= i < n ==> spec_to_erased_column(#[trigger] cols@[i])
                == Some(out@[i]),
        decreases cols@.len() - n,
    {
        match to_erased_column(&cols[n]) {
            Ok(ec) => {
                out.push(ec);
            },
            Err(e) => {
                return Err(e);
            },
        }
        n = n + 1;
    }
    Ok(out)
}

} // verus!
