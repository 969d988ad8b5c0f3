//! The error taxonomy of the parser.
//!
//! - A `RangeError` (the `Range` variant of [`FieldError`]) says a requested
//!   column range exceeds the line length: the line is truncated.
//! - A [`ConversionError`] says a slice does not match the grammar of the
//!   expected field type: the data is corrupt or wrongly encoded.
//! - A `DispatchError` (the `Dispatch` variant of [`RecordError`]) says a
//!   line's type code does not match the parser it was handed to.
//! - A [`StructuralError`] says the sequence of record types violates the
//!   required document shape.

use vstd::prelude::*;

verus! {

/// Which record layout a line follows, named by its leading type code.
#[derive(Clone, Copy, Debug, PartialEq, Eq, Structural)]
pub enum RecordKind {
    Header,
    OldBalance,
    Movement,
    FreeComment,
    NewBalance,
    Trailer,
}

/// A slice did not match the grammar of the expected field type.  Each
/// variant names the expected type and carries the offending text.
#[derive(Clone, Debug)]
pub enum ConversionError {
    BadDate { text: String },
    BadU8 { text: String },
    BadU64 { text: String },
    BadDuplicate { text: String },
}

/// Mathematical view of a [`ConversionError`]: the same shape over
/// character sequences.
#[verifier::ext_equal]
pub enum ConversionErrorView {
    BadDate { text: Seq<char> },
    BadU8 { text: Seq<char> },
    BadU64 { text: Seq<char> },
    BadDuplicate { text: Seq<char> },
}

impl View for ConversionError {
    type V = ConversionErrorView;

    open spec fn view(&self) -> ConversionErrorView {
        match self {
            ConversionError::BadDate { text } => ConversionErrorView::BadDate { text: text@ },
            ConversionError::BadU8 { text } => ConversionErrorView::BadU8 { text: text@ },
            ConversionError::BadU64 { text } => ConversionErrorView::BadU64 { text: text@ },
            ConversionError::BadDuplicate { text } => ConversionErrorView::BadDuplicate {
                text: text@,
            },
        }
    }
}

/// Failure of one field extraction: either the range does not fit on the
/// line, or the slice does not convert.  Both variants carry the column
/// range for diagnostics.
#[derive(Clone, Debug)]
pub enum FieldError {
    Range { start: usize, end: usize },
    Conversion { start: usize, end: usize, cause: ConversionError },
}

/// Mathematical view of a [`FieldError`].
#[verifier::ext_equal]
pub enum FieldErrorView {
    Range { start: int, end: int },
    Conversion { start: int, end: int, cause: ConversionErrorView },
}

impl View for FieldError {
    type V = FieldErrorView;

    open spec fn view(&self) -> FieldErrorView {
        match self {
            FieldError::Range { start, end } => FieldErrorView::Range {
                start: *start as int,
                end: *end as int,
            },
            FieldError::Conversion { start, end, cause } => FieldErrorView::Conversion {
                start: *start as int,
                end: *end as int,
                cause: cause@,
            },
        }
    }
}

/// Failure of one record parser: the line carries another type code than
/// the parser expects (a dispatch error), or one of its fields fails.
#[derive(Clone, Debug)]
pub enum RecordError {
    Dispatch { expected: RecordKind },
    Field(FieldError),
}

/// Mathematical view of a [`RecordError`].
#[verifier::ext_equal]
pub enum RecordErrorView {
    Dispatch { expected: RecordKind },
    Field(FieldErrorView),
}

impl View for RecordError {
    type V = RecordErrorView;

    open spec fn view(&self) -> RecordErrorView {
        match self {
            RecordError::Dispatch { expected } => RecordErrorView::Dispatch {
                expected: *expected,
            },
            RecordError::Field(e) => RecordErrorView::Field(e@),
        }
    }
}

/// The overall sequence of record types violates the required document
/// shape: a record other than the expected one stands at `line_number`
/// (1-based), or the input ends before the document is complete.
#[derive(Clone, Copy, Debug, PartialEq, Eq, Structural)]
pub enum StructuralError {
    Missing { expected: RecordKind, line_number: usize },
    Truncated { line_number: usize },
}

/// Failure of document assembly: a record parser failed on the line at
/// `line_number` (1-based), or the document shape is wrong.
#[derive(Clone, Debug)]
pub enum CodaError {
    Record { kind: RecordKind, line_number: usize, cause: FieldError },
    Structure(StructuralError),
}

/// Mathematical view of a [`CodaError`].
#[verifier::ext_equal]
pub enum CodaErrorView {
    Record { kind: RecordKind, line_number: int, cause: FieldErrorView },
    Structure(StructuralError),
}

impl View for CodaError {
    type V = CodaErrorView;

    open spec fn view(&self) -> CodaErrorView {
        match self {
            CodaError::Record { kind, line_number, cause } => CodaErrorView::Record {
                kind: *kind,
                line_number: *line_number as int,
                cause: cause@,
            },
            CodaError::Structure(e) => CodaErrorView::Structure(*e),
        }
    }
}

} // verus!
