use vstd::prelude::*;

use crate::error::BridgeError;
use crate::row::{project_columns, spec_to_erased_column, ConcreteColumn, ErasedColumn};
use crate::types::{spec_type_description, ErasedKind};

verus! {

/// A prepared statement as the concrete backend describes it: its result
/// columns and how many parameters it takes.
#[derive(Debug, Clone, PartialEq)]
pub struct ConcreteStatement {
    pub columns: Vec<ConcreteColumn>,
    pub parameters: usize,
}

/// The erased statement handle handed to callers: the statement's text, its
/// parameter count, and its result columns with bridged types.
#[derive(Debug, Clone, PartialEq)]
pub struct ErasedStatement {
    pub sql: String,
    pub parameters: usize,
    pub columns: Vec<ErasedColumn>,
}

/// The backend's static description of a statement: result columns, their
/// nullability where the backend knows it, and the parameter count.
#[derive(Debug, Clone, PartialEq)]
pub struct ConcreteDescribe {
    pub columns: Vec<ConcreteColumn>,
    pub nullable: Vec<Option<bool>>,
    pub parameters: usize,
}

/// The erased description consumable by callers independent of backend.
#[derive(Debug, Clone, PartialEq)]
pub struct ErasedDescribe {
    pub columns: Vec<ErasedColumn>,
    pub nullable: Vec<Option<bool>>,
    pub parameters: usize,
}

/// Builds the erased statement handle after the concrete backend has
/// prepared a statement. Caller-supplied parameter-type hints are accepted
/// but ignored — the backend performs its own type inference at prepare
/// time, so the result does not depend on them. Fails, with the failing
/// column's decode error, exactly where a column's type cannot be bridged.
pub fn to_erased_statement(
    sql: String,
    _hints: &Vec<ErasedKind>,
    stmt: &ConcreteStatement,
) -> (r: Result<ErasedStatement, BridgeError>)
    ensures
        (forall|i: int|
            0 <= i < stmt.columns@.len() ==> spec_to_erased_column(
                #[trigger] stmt.columns@[i],
            ) is Some) <==> r is Ok,
        (r matches Ok(es) ==> {
            &&& es.sql == sql
            &&& es.parameters == stmt.parameters
            &&& es.columns@.len() == stmt.columns@.len()
            &&& forall|i: int|
                0 <= i < stmt.columns@.len() ==> spec_to_erased_column(#[trigger] stmt.columns@[i])
                    == Some(es.columns@[i])
        }),
        (r matches Err(e) ==> (exists|i: int|
            {
                &&& 0 <= i < stmt.columns@.len()
                &&& spec_to_erased_column(#[trigger] stmt.columns@[i]) is None
                &&& (e matches BridgeError::ColumnDecode { index, message } && index@
                    == stmt.columns@[i].name@ && message@ == spec_type_description(
                    stmt.columns@[i].type_info,
                ))
            })),
{
    match project_columns(&stmt.columns) {
        Ok(cols) => Ok(ErasedStatement { sql, parameters: stmt.parameters, columns: cols }),
        Err(e) => Err(e),
    }
}

/// Converts the backend's static description of a statement to the erased
/// description: parameter count and nullability carried over, every column
/// type bridged. Fails, with the failing column's decode error, exactly
/// where a column or parameter type cannot be bridged.
pub fn to_erased_describe(d: ConcreteDescribe) -> (r: Result<ErasedDescribe, BridgeError>)
    ensures
        (forall|i: int|
            0 <= i < d.columns@.len() ==> spec_to_erased_column(
                #[trigger] d.columns@[i],
            ) is Some) <==> r is Ok,
        (r matches Ok(ed) ==> {
            &&& ed.parameters == d.parameters
            &&& ed.nullable == d.nullable
            &&& ed.columns@.len() == d.columns@.len()
            &&& forall|i: int|
                0 <= i < d.columns@.len() ==> spec_to_erased_column(#[trigger] d.columns@[i])
                    == Some(ed.columns@[i])
        }),
        (r matches Err(e) ==> (exists|i: int|
            {
                &&& 0 <= i < d.columns@.len()
                &&& spec_to_erased_column(#[trigger] d.columns@[i]) is None
                &&& (e matches BridgeError::ColumnDecode { index, message } && index@
                    == d.columns@[i].name@ && message@ == spec_type_description(
                    d.columns@[i].type_info,
                ))
            })),
{
    match project_columns(&d.columns) {
        Ok(cols) => Ok(ErasedDescribe { columns: cols, nullable: d.nullable, parameters: d.parameters }),
        Err(e) => Err(e),
    }
}

} // verus!
