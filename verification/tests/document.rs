use coda::coda::Coda;
use coda::date::Date;
use coda::errors::{CodaError, ConversionError, FieldError, RecordKind, StructuralError};
use coda::records::{BodyRecord, Header, Movement, OldBalance, Trailer};

const HEADER_LINE: &str = "0000029031872505        00099449  Testgebruiker21           KREDBEBB   00630366277 00000                                       2";

fn put(buf: &mut Vec<u8>, start: usize, s: &str) {
    buf[start..start + s.len()].copy_from_slice(s.as_bytes());
}

fn old_balance_line() -> String {
    let mut b = vec![b' '; 64];
    b[0] = b'1';
    put(&mut b, 5, "BE0123456789");
    put(&mut b, 17, "EUR");
    put(&mut b, 43, "000000000350000");
    put(&mut b, 58, "290318");
    String::from_utf8(b).unwrap()
}

fn movement_line(seq: &str, amount: &str, date: &str, comm: &str) -> String {
    let mut b = vec![b' '; 115];
    b[0] = b'2';
    put(&mut b, 2, seq);
    put(&mut b, 32, amount);
    put(&mut b, 47, date);
    put(&mut b, 62, comm);
    String::from_utf8(b).unwrap()
}

fn free_comment_line(seq: &str, text: &str) -> String {
    let mut b = vec![b' '; 112];
    b[0] = b'4';
    put(&mut b, 2, seq);
    put(&mut b, 32, text);
    String::from_utf8(b).unwrap()
}

fn new_balance_line() -> String {
    let mut b = vec![b' '; 63];
    b[0] = b'8';
    put(&mut b, 4, "BE0123456789");
    put(&mut b, 42, "000000000360000");
    put(&mut b, 57, "300318");
    String::from_utf8(b).unwrap()
}

fn trailer_line() -> String {
    let mut b = vec![b' '; 52];
    b[0] = b'9';
    put(&mut b, 16, "000006");
    put(&mut b, 22, "000000000040000");
    put(&mut b, 37, "000000000050000");
    String::from_utf8(b).unwrap()
}

#[test]
fn header_line_parses() {
    let h = Header::parse(HEADER_LINE).expect("header should parse");
    assert_eq!(h.creation_date, Date { year: 2018, month: 3, day: 29 });
    assert_eq!(h.duplicate, false);
    assert_eq!(h.file_reference, "00099449  ");
    assert_eq!(h.name_addressee, "Testgebruiker21           ");
    assert_eq!(h.bic, "KREDBEBB   ");
    assert_eq!(h.version_code, 2);
}

#[test]
fn header_parse_rejects_other_code() {
    let r = Header::parse(&old_balance_line());
    assert!(matches!(r, Err(coda::errors::RecordError::Dispatch { expected: RecordKind::Header })));
}

#[test]
fn old_balance_line_parses() {
    let ob = OldBalance::parse(&old_balance_line()).expect("old balance should parse");
    assert_eq!(ob.account_number, "BE0123456789");
    assert_eq!(ob.account_currency, "EUR");
    assert_eq!(ob.old_balance, 350000);
    assert_eq!(ob.old_balance_date, Date { year: 2018, month: 3, day: 29 });
}

#[test]
fn movement_line_parses() {
    let m = Movement::parse(&movement_line("0001", "000000000012345", "300318", "payment"))
        .expect("movement should parse");
    assert_eq!(m.sequence_number, "0001");
    assert_eq!(m.amount, 12345);
    assert_eq!(m.value_date, Date { year: 2018, month: 3, day: 30 });
    assert!(m.communication.starts_with("payment"));
}

#[test]
fn trailer_line_parses() {
    let t = Trailer::parse(&trailer_line()).expect("trailer should parse");
    assert_eq!(t.number_records, 6);
    assert_eq!(t.total_debit, 40000);
    assert_eq!(t.total_credit, 50000);
}

#[test]
fn full_document_parses() {
    let lines = vec![
        HEADER_LINE.to_string(),
        old_balance_line(),
        movement_line("0001", "000000000012345", "300318", "first"),
        free_comment_line("0002", "a comment"),
        movement_line("0003", "000000000000007", "310318", "second"),
        new_balance_line(),
        trailer_line(),
    ];
    let doc = Coda::parse(&lines).expect("document should parse");
    assert_eq!(doc.header.creation_date, Date { year: 2018, month: 3, day: 29 });
    assert_eq!(doc.old_balance.account_currency, "EUR");
    assert_eq!(doc.body.len(), 3);
    assert!(matches!(doc.body[0], BodyRecord::Movement(ref m) if m.amount == 12345));
    assert!(matches!(doc.body[1], BodyRecord::FreeComment(ref c) if c.text.starts_with("a comment")));
    assert!(matches!(doc.body[2], BodyRecord::Movement(ref m) if m.amount == 7));
    assert_eq!(doc.new_balance.new_balance, 360000);
    assert!(doc.trailer.is_some());
    assert_eq!(doc.trailer.unwrap().number_records, 6);
    assert!(doc.warnings.is_empty());
}

#[test]
fn trailer_is_optional() {
    let lines = vec![
        HEADER_LINE.to_string(),
        old_balance_line(),
        movement_line("0001", "000000000012345", "300318", "only"),
        new_balance_line(),
    ];
    let doc = Coda::parse(&lines).expect("document should parse");
    assert!(doc.trailer.is_none());
    assert_eq!(doc.body.len(), 1);
}

#[test]
fn missing_old_balance_is_structural_error() {
    let lines = vec![
        HEADER_LINE.to_string(),
        movement_line("0001", "000000000012345", "300318", "early"),
    ];
    let r = Coda::parse(&lines);
    assert!(matches!(
        r,
        Err(CodaError::Structure(StructuralError::Missing {
            expected: RecordKind::OldBalance,
            line_number: 2,
        }))
    ));
}

#[test]
fn missing_header_is_structural_error() {
    let lines = vec![old_balance_line()];
    let r = Coda::parse(&lines);
    assert!(matches!(
        r,
        Err(CodaError::Structure(StructuralError::Missing {
            expected: RecordKind::Header,
            line_number: 1,
        }))
    ));
}

#[test]
fn document_ending_in_movement_is_truncated() {
    let lines = vec![
        HEADER_LINE.to_string(),
        old_balance_line(),
        movement_line("0001", "000000000012345", "300318", "last"),
    ];
    let r = Coda::parse(&lines);
    assert!(matches!(
        r,
        Err(CodaError::Structure(StructuralError::Truncated { line_number: 3 }))
    ));
}

#[test]
fn empty_input_is_truncated() {
    let lines: Vec<String> = Vec::new();
    let r = Coda::parse(&lines);
    assert!(matches!(
        r,
        Err(CodaError::Structure(StructuralError::Truncated { line_number: 0 }))
    ));
}

#[test]
fn malformed_movement_is_fatal_with_context() {
    let lines = vec![
        HEADER_LINE.to_string(),
        old_balance_line(),
        movement_line("0001", "0000000000xx345", "300318", "bad amount"),
    ];
    let r = Coda::parse(&lines);
    assert!(matches!(
        r,
        Err(CodaError::Record {
            kind: RecordKind::Movement,
            line_number: 3,
            cause: FieldError::Conversion { start: 32, end: 47, cause: ConversionError::BadU64 { .. } },
        })
    ));
}

#[test]
fn short_old_balance_is_range_error() {
    let lines = vec![HEADER_LINE.to_string(), "1 short".to_string()];
    let r = Coda::parse(&lines);
    assert!(matches!(
        r,
        Err(CodaError::Record {
            kind: RecordKind::OldBalance,
            line_number: 2,
            cause: FieldError::Range { start: 5, end: 17 },
        })
    ));
}

#[test]
fn unrecognized_body_line_is_skipped_with_warning() {
    let lines = vec![
        HEADER_LINE.to_string(),
        old_balance_line(),
        "7 some vendor extension".to_string(),
        movement_line("0001", "000000000012345", "300318", "after skip"),
        new_balance_line(),
    ];
    let doc = Coda::parse(&lines).expect("document should parse");
    assert_eq!(doc.warnings, vec![3]);
    assert_eq!(doc.body.len(), 1);
}

#[test]
fn lines_after_trailer_are_skipped_with_warning() {
    let lines = vec![
        HEADER_LINE.to_string(),
        old_balance_line(),
        new_balance_line(),
        "x not a trailer".to_string(),
        trailer_line(),
        "trailing garbage".to_string(),
    ];
    let doc = Coda::parse(&lines).expect("document should parse");
    assert!(doc.trailer.is_some());
    assert_eq!(doc.warnings, vec![4, 6]);
}

#[test]
fn malformed_header_is_fatal() {
    let lines = vec!["0 short header".to_string()];
    let r = Coda::parse(&lines);
    assert!(matches!(
        r,
        Err(CodaError::Record {
            kind: RecordKind::Header,
            line_number: 1,
            cause: FieldError::Conversion { start: 5, end: 11, cause: ConversionError::BadDate { .. } },
        })
    ));
}

#[test]
fn empty_lines_before_header_are_passed_over() {
    let lines = vec![
        String::new(),
        HEADER_LINE.to_string(),
        old_balance_line(),
        new_balance_line(),
    ];
    let doc = Coda::parse(&lines).expect("document should parse");
    assert_eq!(doc.header.version_code, 2);
    assert!(doc.body.is_empty());
}
