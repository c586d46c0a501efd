//! The errors of the library.
use crate::datatype::DataType;
use vstd::prelude::*;

verus! {

/// Declares `std::io::Error`, an error of the operating system, so that the
/// library's errors can carry one; nothing inside it is visible to proofs.
#[verifier::external_type_specification]
#[verifier::external_body]
pub struct ExIoError(std::io::Error);

/// What can go wrong when an image is created, opened or accessed.
#[derive(Debug)]
pub enum Error {
    /// Images must be 1D, 2D or 3D; the shape had another number of axes.
    InvalidNaxis { shape: Vec<usize> },
    /// A circular buffer must have 3 dimensions; it had this many.
    CircBuffDimsWrong(usize),
    /// The shape held a zero.
    InvalidShapeArray { shape: Vec<usize> },
    /// A region was requested beyond the end of the mapped memory.
    RequestingPointerBeyondRange { map_len: usize, requested: usize },
    /// An image was opened with another element type than it holds.
    MismatchDataType { expected: DataType, found: DataType },
    /// A data type code outside the ISIO enumeration.
    UnsupportedDataType(u8),
    /// Another writer holds the image's write flag; the image's name.
    ImageIsBeingWritten(String),
    /// An error of the operating system.
    StdIoError(std::io::Error),
    /// An error that cannot happen.
    Impossible(core::convert::Infallible),
}

impl From<std::io::Error> for Error {
    fn from(value: std::io::Error) -> (r: Error) {
        Error::StdIoError(value)
    }
}

impl vstd::std_specs::convert::FromSpecImpl<std::io::Error> for Error {
    open spec fn obeys_from_spec() -> bool {
        true
    }

    open spec fn from_spec(v: std::io::Error) -> Error {
        Error::StdIoError(v)
    }
}

impl From<core::convert::Infallible> for Error {
    fn from(value: core::convert::Infallible) -> (r: Error) {
        Error::Impossible(value)
    }
}

impl vstd::std_specs::convert::FromSpecImpl<core::convert::Infallible> for Error {
    open spec fn obeys_from_spec() -> bool {
        true
    }

    open spec fn from_spec(v: core::convert::Infallible) -> Error {
        Error::Impossible(v)
    }
}

} // verus!
