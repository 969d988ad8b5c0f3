//! Typed records, one per physical line type, each with its fixed column
//! layout, and one parser per record type.
//!
//! A parser first verifies the line's leading type code (a mismatch is a
//! dispatch error), then extracts each field of the layout in order and
//! aborts on the first failing field.  Trailing text beyond the known
//! layout is ignored.

use vstd::prelude::*;
use vstd::pervasive::arbitrary;
use crate::date::{Date, spec_date_of};
use crate::digits::digits_val;
use crate::errors::{FieldErrorView, RecordError, RecordErrorView, RecordKind};
use crate::utils::{
    ConvKind, extract_date, extract_duplicate, extract_str, extract_u8, extract_u64,
    spec_field_err, spec_field_ok,
};

verus! {

/// True when line `l` opens with the type code `code`.
pub open spec fn spec_code_ok(l: Seq<char>, code: char) -> bool {
    l.len() >= 1 && l[0] == code
}

/// Tests whether `line` opens with the type code `code`.
pub(crate) fn has_code(line: &str, code: char) -> (b: bool)
    ensures
        b == spec_code_ok(line@, code),
{
    line.unicode_len() >= 1 && line.get_char(0) == code
}

/// The first line of a statement file: when and for whom it was made.
#[derive(Clone, Debug)]
pub struct Header {
    pub creation_date: Date,
    pub duplicate: bool,
    pub file_reference: String,
    pub name_addressee: String,
    pub bic: String,
    pub version_code: u8,
}

/// Mathematical view of a [`Header`].
#[verifier::ext_equal]
pub struct HeaderView {
    pub creation_date: Date,
    pub duplicate: bool,
    pub file_reference: Seq<char>,
    pub name_addressee: Seq<char>,
    pub bic: Seq<char>,
    pub version_code: u8,
}

impl View for Header {
    type V = HeaderView;

    open spec fn view(&self) -> HeaderView {
        HeaderView {
            creation_date: self.creation_date,
            duplicate: self.duplicate,
            file_reference: self.file_reference@,
            name_addressee: self.name_addressee@,
            bic: self.bic@,
            version_code: self.version_code,
        }
    }
}

/// True when every field of the header layout extracts from `l`.
pub open spec fn spec_header_fields_ok(l: Seq<char>) -> bool {
    &&& spec_field_ok(l, 5, 11, ConvKind::Date)
    &&& spec_field_ok(l, 16, 17, ConvKind::Duplicate)
    &&& spec_field_ok(l, 24, 34, ConvKind::Str)
    &&& spec_field_ok(l, 34, 60, ConvKind::Str)
    &&& spec_field_ok(l, 60, 71, ConvKind::Str)
    &&& spec_field_ok(l, 127, 128, ConvKind::U8)
}

/// True when `l` parses as a header line.
pub open spec fn spec_header_ok(l: Seq<char>) -> bool {
    spec_code_ok(l, '0') && spec_header_fields_ok(l)
}

/// The header a well-formed header line denotes.
pub open spec fn spec_header_view(l: Seq<char>) -> HeaderView {
    HeaderView {
        creation_date: spec_date_of(l.subrange(5, 11)),
        duplicate: l[16] == 'D',
        file_reference: l.subrange(24, 34),
        name_addressee: l.subrange(34, 60),
        bic: l.subrange(60, 71),
        version_code: digits_val(l.subrange(127, 128)) as u8,
    }
}

/// The error of the first header field that fails to extract from `l`.
pub open spec fn spec_header_err(l: Seq<char>) -> FieldErrorView {
    if !spec_field_ok(l, 5, 11, ConvKind::Date) {
        spec_field_err(l, 5, 11, ConvKind::Date)
    } else if !spec_field_ok(l, 16, 17, ConvKind::Duplicate) {
        spec_field_err(l, 16, 17, ConvKind::Duplicate)
    } else if !spec_field_ok(l, 24, 34, ConvKind::Str) {
        spec_field_err(l, 24, 34, ConvKind::Str)
    } else if !spec_field_ok(l, 34, 60, ConvKind::Str) {
        spec_field_err(l, 34, 60, ConvKind::Str)
    } else if !spec_field_ok(l, 60, 71, ConvKind::Str) {
        spec_field_err(l, 60, 71, ConvKind::Str)
    } else if !spec_field_ok(l, 127, 128, ConvKind::U8) {
        spec_field_err(l, 127, 128, ConvKind::U8)
    } else {
        arbitrary()
    }
}

impl Header {
    /// Parses a header line (type code `0`).
    pub fn parse(line: &str) -> (r: Result<Header, RecordError>)
        ensures
            spec_header_ok(line@) ==> (r matches Ok(rec) && rec@ == spec_header_view(line@)),
            !spec_code_ok(line@, '0') ==> (r matches Err(e) && e@ == (RecordErrorView::Dispatch {
                expected: RecordKind::Header,
            })),
            spec_code_ok(line@, '0') && !spec_header_fields_ok(line@) ==> (r matches Err(e) && e@
                == RecordErrorView::Field(spec_header_err(line@))),
    {
        if !has_code(line, '0') {
            return Err(RecordError::Dispatch { expected: RecordKind::Header });
        }
        let creation_date = match extract_date(line, 5, 11) {
            Ok(v) => v,
            Err(e) => return Err(RecordError::Field(e)),
        };
        let duplicate = match extract_duplicate(line, 16, 17) {
            Ok(v) => v,
            Err(e) => return Err(RecordError::Field(e)),
        };
        let file_reference = match extract_str(line, 24, 34) {
            Ok(v) => v,
            Err(e) => return Err(RecordError::Field(e)),
        };
        let name_addressee = match extract_str(line, 34, 60) {
            Ok(v) => v,
            Err(e) => return Err(RecordError::Field(e)),
        };
        let bic = match extract_str(line, 60, 71) {
            Ok(v) => v,
            Err(e) => return Err(RecordError::Field(e)),
        };
        let version_code = match extract_u8(line, 127, 128) {
            Ok(v) => v,
            Err(e) => return Err(RecordError::Field(e)),
        };
        Ok(Header { creation_date, duplicate, file_reference, name_addressee, bic, version_code })
    }
}

/// The balance of the account before the movements of the statement.
#[derive(Clone, Debug)]
pub struct OldBalance {
    pub account_number: String,
    pub account_currency: String,
    pub old_balance: u64,
    pub old_balance_date: Date,
}

/// Mathematical view of an [`OldBalance`].
#[verifier::ext_equal]
pub struct OldBalanceView {
    pub account_number: Seq<char>,
    pub account_currency: Seq<char>,
    pub old_balance: u64,
    pub old_balance_date: Date,
}

impl View for OldBalance {
    type V = OldBalanceView;

    open spec fn view(&self) -> OldBalanceView {
        OldBalanceView {
            account_number: self.account_number@,
            account_currency: self.account_currency@,
            old_balance: self.old_balance,
            old_balance_date: self.old_balance_date,
        }
    }
}

/// True when every field of the old-balance layout extracts from `l`.
pub open spec fn spec_old_balance_fields_ok(l: Seq<char>) -> bool {
    &&& spec_field_ok(l, 5, 17, ConvKind::Str)
    &&& spec_field_ok(l, 17, 20, ConvKind::Str)
    &&& spec_field_ok(l, 43, 58, ConvKind::U64)
    &&& spec_field_ok(l, 58, 64, ConvKind::Date)
}

/// True when `l` parses as an old-balance line.
pub open spec fn spec_old_balance_ok(l: Seq<char>) -> bool {
    spec_code_ok(l, '1') && spec_old_balance_fields_ok(l)
}

/// The old balance a well-formed old-balance line denotes.
pub open spec fn spec_old_balance_view(l: Seq<char>) -> OldBalanceView {
    OldBalanceView {
        account_number: l.subrange(5, 17),
        account_currency: l.subrange(17, 20),
        old_balance: digits_val(l.subrange(43, 58)) as u64,
        old_balance_date: spec_date_of(l.subrange(58, 64)),
    }
}

/// The error of the first old-balance field that fails to extract from `l`.
pub open spec fn spec_old_balance_err(l: Seq<char>) -> FieldErrorView {
    if !spec_field_ok(l, 5, 17, ConvKind::Str) {
        spec_field_err(l, 5, 17, ConvKind::Str)
    } else if !spec_field_ok(l, 17, 20, ConvKind::Str) {
        spec_field_err(l, 17, 20, ConvKind::Str)
    } else if !spec_field_ok(l, 43, 58, ConvKind::U64) {
        spec_field_err(l, 43, 58, ConvKind::U64)
    } else if !spec_field_ok(l, 58, 64, ConvKind::Date) {
        spec_field_err(l, 58, 64, ConvKind::Date)
    } else {
        arbitrary()
    }
}

impl OldBalance {
    /// Parses an old-balance line (type code `1`).
    pub fn parse(line: &str) -> (r: Result<OldBalance, RecordError>)
        ensures
            spec_old_balance_ok(line@) ==> (r matches Ok(rec) && rec@ == spec_old_balance_view(
                line@,
            )),
            !spec_code_ok(line@, '1') ==> (r matches Err(e) && e@ == (RecordErrorView::Dispatch {
                expected: RecordKind::OldBalance,
            })),
            spec_code_ok(line@, '1') && !spec_old_balance_fields_ok(line@) ==> (r matches Err(e)
                && e@ == RecordErrorView::Field(spec_old_balance_err(line@))),
    {
        if !has_code(line, '1') {
            return Err(RecordError::Dispatch { expected: RecordKind::OldBalance });
        }
        let account_number = match extract_str(line, 5, 17) {
            Ok(v) => v,
            Err(e) => return Err(RecordError::Field(e)),
        };
        let account_currency = match extract_str(line, 17, 20) {
            Ok(v) => v,
            Err(e) => return Err(RecordError::Field(e)),
        };
        let old_balance = match extract_u64(line, 43, 58) {
            Ok(v) => v,
            Err(e) => return Err(RecordError::Field(e)),
        };
        let old_balance_date = match extract_date(line, 58, 64) {
            Ok(v) => v,
            Err(e) => return Err(RecordError::Field(e)),
        };
        Ok(OldBalance { account_number, account_currency, old_balance, old_balance_date })
    }
}

/// One transaction line within the statement body.
#[derive(Clone, Debug)]
pub struct Movement {
    pub sequence_number: String,
    pub amount: u64,
    pub value_date: Date,
    pub communication: String,
}

/// Mathematical view of a [`Movement`].
#[verifier::ext_equal]
pub struct MovementView {
    pub sequence_number: Seq<char>,
    pub amount: u64,
    pub value_date: Date,
    pub communication: Seq<char>,
}

impl View for Movement {
    type V = MovementView;

    open spec fn view(&self) -> MovementView {
        MovementView {
            sequence_number: self.sequence_number@,
            amount: self.amount,
            value_date: self.value_date,
            communication: self.communication@,
        }
    }
}

/// True when every field of the movement layout extracts from `l`.
pub open spec fn spec_movement_fields_ok(l: Seq<char>) -> bool {
    &&& spec_field_ok(l, 2, 6, ConvKind::Str)
    &&& spec_field_ok(l, 32, 47, ConvKind::U64)
    &&& spec_field_ok(l, 47, 53, ConvKind::Date)
    &&& spec_field_ok(l, 62, 115, ConvKind::Str)
}

/// True when `l` parses as a movement line.
pub open spec fn spec_movement_ok(l: Seq<char>) -> bool {
    spec_code_ok(l, '2') && spec_movement_fields_ok(l)
}

/// The movement a well-formed movement line denotes.
pub open spec fn spec_movement_view(l: Seq<char>) -> MovementView {
    MovementView {
        sequence_number: l.subrange(2, 6),
        amount: digits_val(l.subrange(32, 47)) as u64,
        value_date: spec_date_of(l.subrange(47, 53)),
        communication: l.subrange(62, 115),
    }
}

/// The error of the first movement field that fails to extract from `l`.
pub open spec fn spec_movement_err(l: Seq<char>) -> FieldErrorView {
    if !spec_field_ok(l, 2, 6, ConvKind::Str) {
        spec_field_err(l, 2, 6, ConvKind::Str)
    } else if !spec_field_ok(l, 32, 47, ConvKind::U64) {
        spec_field_err(l, 32, 47, ConvKind::U64)
    } else if !spec_field_ok(l, 47, 53, ConvKind::Date) {
        spec_field_err(l, 47, 53, ConvKind::Date)
    } else if !spec_field_ok(l, 62, 115, ConvKind::Str) {
        spec_field_err(l, 62, 115, ConvKind::Str)
    } else {
        arbitrary()
    }
}

impl Movement {
    /// Parses a movement line (type code `2`).
    pub fn parse(line: &str) -> (r: Result<Movement, RecordError>)
        ensures
            spec_movement_ok(line@) ==> (r matches Ok(rec) && rec@ == spec_movement_view(line@)),
            !spec_code_ok(line@, '2') ==> (r matches Err(e) && e@ == (RecordErrorView::Dispatch {
                expected: RecordKind::Movement,
            })),
            spec_code_ok(line@, '2') && !spec_movement_fields_ok(line@) ==> (r matches Err(e) && e@
                == RecordErrorView::Field(spec_movement_err(line@))),
    {
        if !has_code(line, '2') {
            return Err(RecordError::Dispatch { expected: RecordKind::Movement });
        }
        let sequence_number = match extract_str(line, 2, 6) {
            Ok(v) => v,
            Err(e) => return Err(RecordError::Field(e)),
        };
        let amount = match extract_u64(line, 32, 47) {
            Ok(v) => v,
            Err(e) => return Err(RecordError::Field(e)),
        };
        let value_date = match extract_date(line, 47, 53) {
            Ok(v) => v,
            Err(e) => return Err(RecordError::Field(e)),
        };
        let communication = match extract_str(line, 62, 115) {
            Ok(v) => v,
            Err(e) => return Err(RecordError::Field(e)),
        };
        Ok(Movement { sequence_number, amount, value_date, communication })
    }
}

/// A free-text comment line within the statement body.
#[derive(Clone, Debug)]
pub struct FreeComment {
    pub sequence_number: String,
    pub text: String,
}

/// Mathematical view of a [`FreeComment`].
#[verifier::ext_equal]
pub struct FreeCommentView {
    pub sequence_number: Seq<char>,
    pub text: Seq<char>,
}

impl View for FreeComment {
    type V = FreeCommentView;

    open spec fn view(&self) -> FreeCommentView {
        FreeCommentView { sequence_number: self.sequence_number@, text: self.text@ }
    }
}

/// True when every field of the free-comment layout extracts from `l`.
pub open spec fn spec_free_comment_fields_ok(l: Seq<char>) -> bool {
    &&& spec_field_ok(l, 2, 6, ConvKind::Str)
    &&& spec_field_ok(l, 32, 112, ConvKind::Str)
}

/// True when `l` parses as a free-comment line.
pub open spec fn spec_free_comment_ok(l: Seq<char>) -> bool {
    spec_code_ok(l, '4') && spec_free_comment_fields_ok(l)
}

/// The free comment a well-formed free-comment line denotes.
pub open spec fn spec_free_comment_view(l: Seq<char>) -> FreeCommentView {
    FreeCommentView { sequence_number: l.subrange(2, 6), text: l.subrange(32, 112) }
}

/// The error of the first free-comment field that fails to extract from `l`.
pub open spec fn spec_free_comment_err(l: Seq<char>) -> FieldErrorView {
    if !spec_field_ok(l, 2, 6, ConvKind::Str) {
        spec_field_err(l, 2, 6, ConvKind::Str)
    } else if !spec_field_ok(l, 32, 112, ConvKind::Str) {
        spec_field_err(l, 32, 112, ConvKind::Str)
    } else {
        arbitrary()
    }
}

impl FreeComment {
    /// Parses a free-comment line (type code `4`).
    pub fn parse(line: &str) -> (r: Result<FreeComment, RecordError>)
        ensures
            spec_free_comment_ok(line@) ==> (r matches Ok(rec) && rec@ == spec_free_comment_view(
                line@,
            )),
            !spec_code_ok(line@, '4') ==> (r matches Err(e) && e@ == (RecordErrorView::Dispatch {
                expected: RecordKind::FreeComment,
            })),
            spec_code_ok(line@, '4') && !spec_free_comment_fields_ok(line@) ==> (r matches Err(e)
                && e@ == RecordErrorView::Field(spec_free_comment_err(line@))),
    {
        if !has_code(line, '4') {
            return Err(RecordError::Dispatch { expected: RecordKind::FreeComment });
        }
        let sequence_number = match extract_str(line, 2, 6) {
            Ok(v) => v,
            Err(e) => return Err(RecordError::Field(e)),
        };
        let text = match extract_str(line, 32, 112) {
            Ok(v) => v,
            Err(e) => return Err(RecordError::Field(e)),
        };
        Ok(FreeComment { sequence_number, text })
    }
}

/// The balance of the account after the movements of the statement.
#[derive(Clone, Debug)]
pub struct NewBalance {
    pub account_number: String,
    pub new_balance: u64,
    pub new_balance_date: Date,
}

/// Mathematical view of a [`NewBalance`].
#[verifier::ext_equal]
pub struct NewBalanceView {
    pub account_number: Seq<char>,
    pub new_balance: u64,
    pub new_balance_date: Date,
}

impl View for NewBalance {
    type V = NewBalanceView;

    open spec fn view(&self) -> NewBalanceView {
        NewBalanceView {
            account_number: self.account_number@,
            new_balance: self.new_balance,
            new_balance_date: self.new_balance_date,
        }
    }
}

/// True when every field of the new-balance layout extracts from `l`.
pub open spec fn spec_new_balance_fields_ok(l: Seq<char>) -> bool {
    &&& spec_field_ok(l, 4, 16, ConvKind::Str)
    &&& spec_field_ok(l, 42, 57, ConvKind::U64)
    &&& spec_field_ok(l, 57, 63, ConvKind::Date)
}

/// True when `l` parses as a new-balance line.
pub open spec fn spec_new_balance_ok(l: Seq<char>) -> bool {
    spec_code_ok(l, '8') && spec_new_balance_fields_ok(l)
}

/// The new balance a well-formed new-balance line denotes.
pub open spec fn spec_new_balance_view(l: Seq<char>) -> NewBalanceView {
    NewBalanceView {
        account_number: l.subrange(4, 16),
        new_balance: digits_val(l.subrange(42, 57)) as u64,
        new_balance_date: spec_date_of(l.subrange(57, 63)),
    }
}

/// The error of the first new-balance field that fails to extract from `l`.
pub open spec fn spec_new_balance_err(l: Seq<char>) -> FieldErrorView {
    if !spec_field_ok(l, 4, 16, ConvKind::Str) {
        spec_field_err(l, 4, 16, ConvKind::Str)
    } else if !spec_field_ok(l, 42, 57, ConvKind::U64) {
        spec_field_err(l, 42, 57, ConvKind::U64)
    } else if !spec_field_ok(l, 57, 63, ConvKind::Date) {
        spec_field_err(l, 57, 63, ConvKind::Date)
    } else {
        arbitrary()
    }
}

impl NewBalance {
    /// Parses a new-balance line (type code `8`).
    pub fn parse(line: &str) -> (r: Result<NewBalance, RecordError>)
        ensures
            spec_new_balance_ok(line@) ==> (r matches Ok(rec) && rec@ == spec_new_balance_view(
                line@,
            )),
            !spec_code_ok(line@, '8') ==> (r matches Err(e) && e@ == (RecordErrorView::Dispatch {
                expected: RecordKind::NewBalance,
            })),
            spec_code_ok(line@, '8') && !spec_new_balance_fields_ok(line@) ==> (r matches Err(e)
                && e@ == RecordErrorView::Field(spec_new_balance_err(line@))),
    {
        if !has_code(line, '8') {
            return Err(RecordError::Dispatch { expected: RecordKind::NewBalance });
        }
        let account_number = match extract_str(line, 4, 16) {
            Ok(v) => v,
            Err(e) => return Err(RecordError::Field(e)),
        };
        let new_balance = match extract_u64(line, 42, 57) {
            Ok(v) => v,
            Err(e) => return Err(RecordError::Field(e)),
        };
        let new_balance_date = match extract_date(line, 57, 63) {
            Ok(v) => v,
            Err(e) => return Err(RecordError::Field(e)),
        };
        Ok(NewBalance { account_number, new_balance, new_balance_date })
    }
}

/// The closing line of a statement file: record count and totals.
#[derive(Clone, Debug)]
pub struct Trailer {
    pub number_records: u64,
    pub total_debit: u64,
    pub total_credit: u64,
}

/// Mathematical view of a [`Trailer`].
#[verifier::ext_equal]
pub struct TrailerView {
    pub number_records: u64,
    pub total_debit: u64,
    pub total_credit: u64,
}

impl View for Trailer {
    type V = TrailerView;

    open spec fn view(&self) -> TrailerView {
        TrailerView {
            number_records: self.number_records,
            total_debit: self.total_debit,
            total_credit: self.total_credit,
        }
    }
}

/// True when every field of the trailer layout extracts from `l`.
pub open spec fn spec_trailer_fields_ok(l: Seq<char>) -> bool {
    &&& spec_field_ok(l, 16, 22, ConvKind::U64)
    &&& spec_field_ok(l, 22, 37, ConvKind::U64)
    &&& spec_field_ok(l, 37, 52, ConvKind::U64)
}

/// True when `l` parses as a trailer line.
pub open spec fn spec_trailer_ok(l: Seq<char>) -> bool {
    spec_code_ok(l, '9') && spec_trailer_fields_ok(l)
}

/// The trailer a well-formed trailer line denotes.
pub open spec fn spec_trailer_view(l: Seq<char>) -> TrailerView {
    TrailerView {
        number_records: digits_val(l.subrange(16, 22)) as u64,
        total_debit: digits_val(l.subrange(22, 37)) as u64,
        total_credit: digits_val(l.subrange(37, 52)) as u64,
    }
}

/// The error of the first trailer field that fails to extract from `l`.
pub open spec fn spec_trailer_err(l: Seq<char>) -> FieldErrorView {
    if !spec_field_ok(l, 16, 22, ConvKind::U64) {
        spec_field_err(l, 16, 22, ConvKind::U64)
    } else if !spec_field_ok(l, 22, 37, ConvKind::U64) {
        spec_field_err(l, 22, 37, ConvKind::U64)
    } else if !spec_field_ok(l, 37, 52, ConvKind::U64) {
        spec_field_err(l, 37, 52, ConvKind::U64)
    } else {
        arbitrary()
    }
}

impl Trailer {
    /// Parses a trailer line (type code `9`).
    pub fn parse(line: &str) -> (r: Result<Trailer, RecordError>)
        ensures
            spec_trailer_ok(line@) ==> (r matches Ok(rec) && rec@ == spec_trailer_view(line@)),
            !spec_code_ok(line@, '9') ==> (r matches Err(e) && e@ == (RecordErrorView::Dispatch {
                expected: RecordKind::Trailer,
            })),
            spec_code_ok(line@, '9') && !spec_trailer_fields_ok(line@) ==> (r matches Err(e) && e@
                == RecordErrorView::Field(spec_trailer_err(line@))),
    {
        if !has_code(line, '9') {
            return Err(RecordError::Dispatch { expected: RecordKind::Trailer });
        }
        let number_records = match extract_u64(line, 16, 22) {
            Ok(v) => v,
            Err(e) => return Err(RecordError::Field(e)),
        };
        let total_debit = match extract_u64(line, 22, 37) {
            Ok(v) => v,
            Err(e) => return Err(RecordError::Field(e)),
        };
        let total_credit = match extract_u64(line, 37, 52) {
            Ok(v) => v,
            Err(e) => return Err(RecordError::Field(e)),
        };
        Ok(Trailer { number_records, total_debit, total_credit })
    }
}

/// One record of the statement body, in file order: a movement or a free
/// comment.
#[derive(Clone, Debug)]
pub enum BodyRecord {
    Movement(Movement),
    FreeComment(FreeComment),
}

/// Mathematical view of a [`BodyRecord`].
#[verifier::ext_equal]
pub enum BodyRecordView {
    Movement(MovementView),
    FreeComment(FreeCommentView),
}

impl View for BodyRecord {
    type V = BodyRecordView;

    open spec fn view(&self) -> BodyRecordView {
        match self {
            BodyRecord::Movement(m) => BodyRecordView::Movement(m@),
            BodyRecord::FreeComment(c) => BodyRecordView::FreeComment(c@),
        }
    }
}

} // verus!
