//! Source locations and the evaluator's error type.
//!
//! Every failure of the evaluator carries a location, an error kind, a
//! caused-by identifier (the name of the scope that raised it), and an
//! optional hint string. The evaluator recovers nothing: all failures
//! bubble to the driver.

use vstd::prelude::*;

verus! {

/// A region of source text, by one-based line and zero-based column.
#[derive(Clone, Copy, Debug, PartialEq, Eq, Structural)]
pub enum Location {
    /// A span from (`ln_begin`, `col_begin`) to (`ln_end`, `col_end`).
    Range { ln_begin: u32, col_begin: u32, ln_end: u32, col_end: u32 },
    /// A whole line.
    Line(u32),
    /// No location information.
    Unknown,
}

impl Location {
    /// Builds a `Range` location from its four coordinates.
    pub fn range(ln_begin: u32, col_begin: u32, ln_end: u32, col_end: u32) -> (r: Location)
        ensures
            r == (Location::Range { ln_begin, col_begin, ln_end, col_end }),
    {
        Location::Range { ln_begin, col_begin, ln_end, col_end }
    }

    /// The first line of the location, if known.
    pub fn ln_begin(&self) -> (r: Option<u32>)
        ensures
            r == self.spec_ln_begin(),
    {
        match self {
            Location::Range { ln_begin, .. } => Some(*ln_begin),
            Location::Line(ln) => Some(*ln),
            Location::Unknown => None,
        }
    }

    /// The last line of the location, if known.
    pub fn ln_end(&self) -> (r: Option<u32>)
        ensures
            r == self.spec_ln_end(),
    {
        match self {
            Location::Range { ln_end, .. } => Some(*ln_end),
            Location::Line(ln) => Some(*ln),
            Location::Unknown => None,
        }
    }

    /// The first column of the location, if known.
    pub fn col_begin(&self) -> (r: Option<u32>)
        ensures
            r == self.spec_col_begin(),
    {
        match self {
            Location::Range { col_begin, .. } => Some(*col_begin),
            _ => None,
        }
    }

    /// The last column of the location, if known.
    pub fn col_end(&self) -> (r: Option<u32>)
        ensures
            r == self.spec_col_end(),
    {
        match self {
            Location::Range { col_end, .. } => Some(*col_end),
            _ => None,
        }
    }

    pub open spec fn spec_ln_begin(&self) -> Option<u32> {
        match self {
            Location::Range { ln_begin, .. } => Some(*ln_begin),
            Location::Line(ln) => Some(*ln),
            Location::Unknown => None,
        }
    }

    pub open spec fn spec_ln_end(&self) -> Option<u32> {
        match self {
            Location::Range { ln_end, .. } => Some(*ln_end),
            Location::Line(ln) => Some(*ln),
            Location::Unknown => None,
        }
    }

    pub open spec fn spec_col_begin(&self) -> Option<u32> {
        match self {
            Location::Range { col_begin, .. } => Some(*col_begin),
            _ => None,
        }
    }

    pub open spec fn spec_col_end(&self) -> Option<u32> {
        match self {
            Location::Range { col_end, .. } => Some(*col_end),
            _ => None,
        }
    }
}

/// The kinds of failure the evaluator can raise.
#[derive(Clone, Copy, Debug, PartialEq, Eq, Structural)]
pub enum ErrorKind {
    /// A name did not resolve to any binding.
    NoVar,
    /// An attribute lookup found nothing.
    NoAttr,
    /// The expression is not evaluable at compile time.
    NotConstExpr,
    /// A value had the wrong class for the operation.
    TypeMismatch,
    /// No impl matched a projection.
    NoCandidate,
    /// The construct is not yet supported.
    Feature,
    /// A compiler invariant was violated; the driver should treat it as an
    /// internal compiler error.
    Unreachable,
    /// A constant was bound twice in one scope.
    Reassign,
}

/// A single evaluation failure.
#[derive(Clone, Debug)]
pub struct EvalError {
    pub kind: ErrorKind,
    pub loc: Location,
    pub caused_by: String,
    pub hint: Option<String>,
}

impl EvalError {
    /// Builds an error without a hint.
    pub fn new(kind: ErrorKind, loc: Location, caused_by: String) -> (r: EvalError)
        ensures
            r.kind == kind,
            r.loc == loc,
            r.caused_by@ == caused_by@,
            r.hint is None,
    {
        EvalError { kind, loc, caused_by, hint: None }
    }

    /// Builds an error with a hint.
    pub fn with_hint(kind: ErrorKind, loc: Location, caused_by: String, hint: String) -> (r:
        EvalError)
        ensures
            r.kind == kind,
            r.loc == loc,
            r.caused_by@ == caused_by@,
            r.hint matches Some(h) && h@ == hint@,
    {
        EvalError { kind, loc, caused_by, hint: Some(hint) }
    }
}

/// The result of an evaluator operation.
pub type EvalResult<T> = Result<T, EvalError>;

} // verus!
