use vstd::prelude::*;

verus! {

/// The backend's completion summary of one non-row-returning statement:
/// how many rows it changed, and the backend's own row identifier of the
/// last insert.
#[derive(Debug, Clone, Copy, PartialEq, Eq, Structural)]
pub struct ConcreteSummary {
    pub rows_affected: u64,
    pub last_insert_rowid: i64,
}

/// The erased completion summary. The insert identifier is `None` whenever
/// the backend has no stable concept matching the erased semantics.
#[derive(Debug, Clone, Copy, PartialEq, Eq, Structural)]
pub struct ErasedSummary {
    pub rows_affected: u64,
    pub last_insert_id: Option<i64>,
}

/// The erased form of a concrete summary: the affected-row count carried
/// over, the backend's row identifier dropped — this backend's rowid has no
/// stable erased meaning, so it is intentionally absent, never approximated.
pub open spec fn spec_map_summary(s: ConcreteSummary) -> ErasedSummary {
    ErasedSummary { rows_affected: s.rows_affected, last_insert_id: None }
}

/// The result mapper: pure and total, with no failure path. Fields with no
/// erased analogue are dropped, never approximated.
pub fn map_summary(s: ConcreteSummary) -> (r: ErasedSummary)
    ensures
        r == spec_map_summary(s),
        r.rows_affected == s.rows_affected,
        r.last_insert_id is None,
{
    ErasedSummary { rows_affected: s.rows_affected, last_insert_id: None }
}

} // verus!
