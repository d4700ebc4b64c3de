use vstd::prelude::*;

verus! {

/// Why an access was refused.
#[derive(Debug, Clone, Copy, PartialEq, Eq, Structural)]
pub enum ErrorKind {
    /// The pin index lies outside the range that the bank implements.
    BadIndex,
}

/// A refused read.
#[derive(Debug, Clone, Copy, PartialEq, Eq, Structural)]
pub struct ReadError(pub ErrorKind);

/// A refused write.
#[derive(Debug, Clone, Copy, PartialEq, Eq, Structural)]
pub struct WriteError(pub ErrorKind);

/// A refusal raised by a bank itself.
#[derive(Debug, Clone, Copy, PartialEq, Eq, Structural)]
pub struct PortError(pub ErrorKind);

impl ReadError {
    /// The error every accessor returns for an index its bank does not have.
    pub open spec fn bad_index() -> ReadError {
        ReadError(ErrorKind::BadIndex)
    }
}

impl WriteError {
    /// The error every accessor returns for an index its bank does not have.
    pub open spec fn bad_index() -> WriteError {
        WriteError(ErrorKind::BadIndex)
    }
}

impl From<PortError> for ReadError {
    fn from(value: PortError) -> (r: ReadError) {
        ReadError(value.0)
    }
}

impl vstd::std_specs::convert::FromSpecImpl<PortError> for ReadError {
    open spec fn obeys_from_spec() -> bool {
        true
    }

    open spec fn from_spec(v: PortError) -> ReadError {
        ReadError(v.0)
    }
}

impl From<ReadError> for PortError {
    fn from(value: ReadError) -> (r: PortError) {
        PortError(value.0)
    }
}

impl vstd::std_specs::convert::FromSpecImpl<ReadError> for PortError {
    open spec fn obeys_from_spec() -> bool {
        true
    }

    open spec fn from_spec(v: ReadError) -> PortError {
        PortError(v.0)
    }
}

impl From<PortError> for WriteError {
    fn from(value: PortError) -> (r: WriteError) {
        WriteError(value.0)
    }
}

impl vstd::std_specs::convert::FromSpecImpl<PortError> for WriteError {
    open spec fn obeys_from_spec() -> bool {
        true
    }

    open spec fn from_spec(v: PortError) -> WriteError {
        WriteError(v.0)
    }
}

impl From<WriteError> for PortError {
    fn from(value: WriteError) -> (r: PortError) {
        PortError(value.0)
    }
}

impl vstd::std_specs::convert::FromSpecImpl<WriteError> for PortError {
    open spec fn obeys_from_spec() -> bool {
        true
    }

    open spec fn from_spec(v: WriteError) -> PortError {
        PortError(v.0)
    }
}

impl From<WriteError> for ReadError {
    fn from(value: WriteError) -> (r: ReadError) {
        ReadError(value.0)
    }
}

impl vstd::std_specs::convert::FromSpecImpl<WriteError> for ReadError {
    open spec fn obeys_from_spec() -> bool {
        true
    }

    open spec fn from_spec(v: WriteError) -> ReadError {
        ReadError(v.0)
    }
}

impl From<ReadError> for WriteError {
    fn from(value: ReadError) -> (r: WriteError) {
        WriteError(value.0)
    }
}

impl vstd::std_specs::convert::FromSpecImpl<ReadError> for WriteError {
    open spec fn obeys_from_spec() -> bool {
        true
    }

    open spec fn from_spec(v: ReadError) -> WriteError {
        WriteError(v.0)
    }
}

} // verus!
