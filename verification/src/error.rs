use vstd::prelude::*;

verus! {

/// The failures this bridge can add on top of the backend's own errors.
///
/// A backend execution failure is passed through verbatim as `Backend`; the
/// remaining variants are mapping failures introduced by the bridge itself,
/// each distinct and diagnosable.
#[derive(Debug, Clone, PartialEq, Eq)]
pub enum BridgeError {
    /// The backend (or the transport between its execution worker and the
    /// consumer) reported a failure of its own; the message is carried
    /// through unmodified.
    Backend(String),
    /// A concrete type descriptor has no erased equivalent; carries the
    /// offending type's description.
    UnsupportedType(String),
    /// An erased value's kind has no concrete mapping; carries the kind's
    /// description. Reported, never a process-terminating fault.
    UnsupportedArgumentKind(String),
    /// A cell-level conversion failed; the column is identified by name.
    ColumnDecode { index: String, message: String },
}

} // verus!
