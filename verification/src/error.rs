use vstd::prelude::*;

verus! {

/// A host-side fault detected at the host/guest boundary: a stateful
/// operation named a State Handle that is not registered. This is a
/// programming-invariant violation — registry and calling code have gotten
/// out of sync — not a runtime condition to recover from: the boundary
/// that receives it aborts the call rather than degrade gracefully.
#[derive(Debug, Clone, Copy, PartialEq, Eq, Structural)]
pub enum HostFault {
    /// A stateful operation named a handle that is not registered.
    MissingState(i32),
}

/// The host embedding's error type.
#[derive(Debug)]
pub enum HostError {
    /// An error the interpreter reported while parsing, linking,
    /// instantiating or running the module.
    Interpreter(wasmi::Error),
    /// The command line did not name a module file.
    Usage,
    /// A memory access lay outside the current bounds of linear memory.
    OutOfBounds,
    /// Host-to-guest string encoding is intentionally unsupported.
    EncodeUnsupported,
    /// The module does not export its linear memory under the name "memory".
    NoMemoryExport,
    /// The module declares a start function, which the loader refuses to run.
    StartFunction,
    /// No export of the requested name exists in the module's export table.
    ExportNotFound,
    /// The requested import name is not recognized; carries that name.
    UnknownImport(String),
    /// A scripted call produced a value other than the expected one;
    /// carries the number of the failing step.
    Mismatch(u32),
}

impl From<wasmi::Error> for HostError {
    fn from(e: wasmi::Error) -> (r: Self) {
        HostError::Interpreter(e)
    }
}

impl vstd::std_specs::convert::FromSpecImpl<wasmi::Error> for HostError {
    open spec fn obeys_from_spec() -> bool {
        true
    }

    open spec fn from_spec(e: wasmi::Error) -> Self {
        HostError::Interpreter(e)
    }
}

} // verus!
