//! The failure taxonomy: a closed set of failure categories, and the
//! conversion functions that canonicalize source-specific failures into it.
//!
//! Conversion is total and is the single sanctioned path for crossing from a
//! foreign failure into the taxonomy; downstream code matches on [`ErrorKind`]
//! alone and never inspects a foreign error value.

use vstd::prelude::*;

verus! {

/// A violated mathematical precondition of a domain operation.
///
/// Values of this type are constructed only by the domain operations; no
/// other component synthesizes them.
#[derive(Clone, Copy, Debug, PartialEq, Eq, Structural)]
pub enum DomainError {
    DivisionByZero,
    NegativeSquareRoot,
    Overflow,
}

/// The canonical failure taxonomy. Each variant carries enough detail to
/// render a human-readable description without re-inspecting the original
/// source value.
#[derive(Clone, Debug, PartialEq)]
pub enum ErrorKind {
    /// A storage-layer failure (file missing, unreadable, permission denied).
    Io(String),
    /// Text did not match the expected integer grammar.
    Parse(String),
    /// Text did not match the expected floating-point grammar.
    ParseFloat(String),
    /// A domain operation's mathematical precondition was violated.
    Domain(DomainError),
}

/// The mathematical model of an [`ErrorKind`]: the same taxonomy with each
/// detail string abstracted to its character sequence.
pub enum ErrorKindView {
    Io(Seq<char>),
    Parse(Seq<char>),
    ParseFloat(Seq<char>),
    Domain(DomainError),
}

impl View for ErrorKind {
    type V = ErrorKindView;

    open spec fn view(&self) -> ErrorKindView {
        match self {
            ErrorKind::Io(d) => ErrorKindView::Io(d@),
            ErrorKind::Parse(d) => ErrorKindView::Parse(d@),
            ErrorKind::ParseFloat(d) => ErrorKindView::ParseFloat(d@),
            ErrorKind::Domain(e) => ErrorKindView::Domain(*e),
        }
    }
}

/// The description of a [`DomainError`], naming the violated precondition.
pub open spec fn domain_error_text(e: DomainError) -> Seq<char> {
    match e {
        DomainError::DivisionByZero => "division by zero"@,
        DomainError::NegativeSquareRoot => "square root of a negative number"@,
        DomainError::Overflow => "arithmetic overflow"@,
    }
}

/// The description of an [`ErrorKind`]: the category name, followed by the
/// original cause's descriptive content verbatim.
pub open spec fn error_text(e: ErrorKindView) -> Seq<char> {
    match e {
        ErrorKindView::Io(d) => "storage failure: "@ + d,
        ErrorKindView::Parse(d) => "integer parse failure: "@ + d,
        ErrorKindView::ParseFloat(d) => "floating-point parse failure: "@ + d,
        ErrorKindView::Domain(de) => "domain failure: "@ + domain_error_text(de),
    }
}

impl DomainError {
    /// A human-readable description of the violated precondition.
    pub fn describe(&self) -> (r: String)
        ensures
            r@ == domain_error_text(*self),
    {
        match self {
            DomainError::DivisionByZero => String::from_str("division by zero"),
            DomainError::NegativeSquareRoot => String::from_str("square root of a negative number"),
            DomainError::Overflow => String::from_str("arithmetic overflow"),
        }
    }
}

impl ErrorKind {
    /// Canonicalize a storage-layer failure, given its descriptive content.
    pub fn from_io(details: String) -> (r: ErrorKind)
        ensures
            r == ErrorKind::Io(details),
    {
        ErrorKind::Io(details)
    }

    /// Canonicalize an integer-parse failure, given the offending text.
    pub fn from_parse(details: String) -> (r: ErrorKind)
        ensures
            r == ErrorKind::Parse(details),
    {
        ErrorKind::Parse(details)
    }

    /// Canonicalize a floating-point-parse failure, given the offending text.
    pub fn from_parse_float(details: String) -> (r: ErrorKind)
        ensures
            r == ErrorKind::ParseFloat(details),
    {
        ErrorKind::ParseFloat(details)
    }

    /// Canonicalize a domain-operation failure.
    pub fn from_domain(e: DomainError) -> (r: ErrorKind)
        ensures
            r == ErrorKind::Domain(e),
    {
        ErrorKind::Domain(e)
    }

    /// A human-readable description: the category name, with the original
    /// cause's descriptive content embedded verbatim.
    pub fn describe(&self) -> (r: String)
        ensures
            r@ == error_text(self@),
    {
        match self {
            ErrorKind::Io(d) => {
                let mut s = String::from_str("storage failure: ");
                s.append(d.as_str());
                s
            },
            ErrorKind::Parse(d) => {
                let mut s = String::from_str("integer parse failure: ");
                s.append(d.as_str());
                s
            },
            ErrorKind::ParseFloat(d) => {
                let mut s = String::from_str("floating-point parse failure: ");
                s.append(d.as_str());
                s
            },
            ErrorKind::Domain(de) => {
                let mut s = String::from_str("domain failure: ");
                let detail = de.describe();
                s.append(detail.as_str());
                s
            },
        }
    }
}

} // verus!
