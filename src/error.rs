use vstd::prelude::*;

verus! {

/// Why a clearing job could not run at all.
#[derive(Debug, Clone, Copy, PartialEq, Eq, Structural)]
pub enum ErrorKind {
    /// The target folder could not be listed.
    ScanFolderError,
}

/// The failure of a whole clearing job.
#[derive(Debug, Clone, Copy, PartialEq, Eq, Structural)]
pub struct ClearProcessError {
    pub kind: ErrorKind,
}

impl ClearProcessError {
    pub open spec fn spec_kind(&self) -> ErrorKind {
        self.kind
    }

    pub fn new(kind: ErrorKind) -> (r: Self)
        ensures
            r.spec_kind() == kind,
    {
        Self { kind }
    }

    pub fn kind(&self) -> (r: ErrorKind)
        ensures
            r == self.spec_kind(),
    {
        self.kind
    }
}

} // verus!
