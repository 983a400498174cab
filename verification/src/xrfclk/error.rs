//! The errors of the clock-chip support.

use vstd::prelude::*;
use vstd::string::StringExecFns;

verus! {

/// What went wrong.
#[derive(Debug, Clone, Copy, PartialEq, Eq, Structural)]
pub enum XRFClkErrorKind {
    UnknownError,
    IOError,
    InvalidFrequency,
    InvalidChipString,
    InvalidFilePath,
}

/// An error of the clock-chip support.
#[derive(Debug, Clone, Copy, PartialEq, Eq, Structural)]
pub struct XRFClkError {
    kind: XRFClkErrorKind,
}

impl XRFClkErrorKind {
    /// The name of each kind.
    pub open spec fn spec_name(self) -> Seq<char> {
        match self {
            XRFClkErrorKind::UnknownError => "UnknownError"@,
            XRFClkErrorKind::IOError => "IOError"@,
            XRFClkErrorKind::InvalidFrequency => "InvalidFrequency"@,
            XRFClkErrorKind::InvalidChipString => "InvalidChipString"@,
            XRFClkErrorKind::InvalidFilePath => "InvalidFilePath"@,
        }
    }

    /// The name of the kind.
    pub fn name(&self) -> (name: &'static str)
        ensures
            name@ == self.spec_name(),
    {
        match self {
            XRFClkErrorKind::UnknownError => "UnknownError",
            XRFClkErrorKind::IOError => "IOError",
            XRFClkErrorKind::InvalidFrequency => "InvalidFrequency",
            XRFClkErrorKind::InvalidChipString => "InvalidChipString",
            XRFClkErrorKind::InvalidFilePath => "InvalidFilePath",
        }
    }

    /// The kind as text: its name.
    pub fn to_string(&self) -> (text: String)
        ensures
            text@ == self.spec_name(),
    {
        String::from_str(self.name())
    }

    /// The number of each kind.
    pub open spec fn spec_code(&self) -> u32 {
        match *self {
            XRFClkErrorKind::UnknownError => 0,
            XRFClkErrorKind::IOError => 1,
            XRFClkErrorKind::InvalidFrequency => 2,
            XRFClkErrorKind::InvalidChipString => 3,
            XRFClkErrorKind::InvalidFilePath => 4,
        }
    }

    /// The number of the kind.
    #[verifier::when_used_as_spec(spec_code)]
    pub fn code(&self) -> (code: u32)
        ensures
            code == self.spec_code(),
    {
        match self {
            XRFClkErrorKind::UnknownError => 0,
            XRFClkErrorKind::IOError => 1,
            XRFClkErrorKind::InvalidFrequency => 2,
            XRFClkErrorKind::InvalidChipString => 3,
            XRFClkErrorKind::InvalidFilePath => 4,
        }
    }
}

impl XRFClkError {
    /// The kind of the error.
    pub closed spec fn spec_kind(&self) -> XRFClkErrorKind {
        self.kind
    }

    /// The error of the given kind.
    pub fn from(kind: XRFClkErrorKind) -> (error: XRFClkError)
        ensures
            error.spec_kind() == kind,
    {
        Self { kind }
    }

    /// The kind of the error.
    #[verifier::when_used_as_spec(spec_kind)]
    pub fn kind(&self) -> (kind: XRFClkErrorKind)
        ensures
            kind == self.spec_kind(),
    {
        self.kind
    }

    /// The text of an error of the given kind.
    pub open spec fn text(kind: XRFClkErrorKind) -> Seq<char> {
        "xrfclk error of kind: "@ + kind.spec_name() + " occurred"@
    }

    /// The error as text.
    pub fn to_string(&self) -> (text: String)
        ensures
            text@ == XRFClkError::text(self.spec_kind()),
    {
        String::from_str("xrfclk error of kind: ").concat(self.kind.name()).concat(" occurred")
    }
}

} // verus!
