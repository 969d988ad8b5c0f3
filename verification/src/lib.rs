//! Parser for fixed-column bank-statement exchange files (the CODA format
//! used by Belgian banks).
//!
//! The crate is organised bottom-up:
//! - [`digits`] holds the arithmetic of decimal digit strings;
//! - [`date`] holds the calendar model and its validity rules;
//! - [`errors`] holds the error taxonomy of the parser;
//! - [`utils`] holds the field converters and the generic field extractor;
//! - [`records`] holds the typed records and one parser per record type;
//! - [`coda`] holds the document assembler, a state machine over lines.

pub mod coda;
pub mod date;
pub mod digits;
pub mod errors;
pub mod records;
pub mod utils;
