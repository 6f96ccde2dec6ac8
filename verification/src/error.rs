use vstd::prelude::*;

use crate::backends::xlib::XlibError;

verus! {

#[verifier::external_type_specification]
#[verifier::external_body]
pub struct ExIoError(std::io::Error);

#[verifier::external_type_specification]
#[verifier::external_body]
pub struct ExFmtError(std::fmt::Error);

/// The errors of the window manager.
#[derive(Debug)]
pub enum Error {
    /// Stands for "no value" where a `Result` is used as an `Option`.
    NonError,
    UnknownEvent,
    UnhandledVirtualKeyCode,
    IoError(std::io::Error),
    FmtError(std::fmt::Error),
    XlibError(XlibError),
}

impl From<std::io::Error> for Error {
    fn from(e: std::io::Error) -> (r: Self) {
        Error::IoError(e)
    }
}

impl vstd::std_specs::convert::FromSpecImpl<std::io::Error> for Error {
    open spec fn obeys_from_spec() -> bool {
        true
    }

    open spec fn from_spec(v: std::io::Error) -> Error {
        Error::IoError(v)
    }
}

impl From<std::fmt::Error> for Error {
    fn from(e: std::fmt::Error) -> (r: Self) {
        Error::FmtError(e)
    }
}

impl vstd::std_specs::convert::FromSpecImpl<std::fmt::Error> for Error {
    open spec fn obeys_from_spec() -> bool {
        true
    }

    open spec fn from_spec(v: std::fmt::Error) -> Error {
        Error::FmtError(v)
    }
}

impl From<XlibError> for Error {
    fn from(e: XlibError) -> (r: Self) {
        Error::XlibError(e)
    }
}

impl vstd::std_specs::convert::FromSpecImpl<XlibError> for Error {
    open spec fn obeys_from_spec() -> bool {
        true
    }

    open spec fn from_spec(v: XlibError) -> Error {
        Error::XlibError(v)
    }
}

} // verus!
