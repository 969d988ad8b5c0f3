//! The document assembler: a state machine over the lines of a statement
//! file.
//!
//! The machine expects a header first, then an old balance, then a body of
//! movement and free-comment lines up to a new balance, then an optional
//! trailer.  A line with an unrecognized type code inside the body is
//! skipped and its line number recorded as a warning; reaching the end of
//! the input before the new balance is a fatal truncation.  The first fatal
//! error aborts assembly: no partial document is ever returned.

use vstd::prelude::*;
use crate::errors::{CodaError, CodaErrorView, RecordError, RecordKind, StructuralError};
use crate::records::{
    BodyRecord, BodyRecordView, FreeComment, Header, HeaderView, Movement, NewBalance,
    NewBalanceView, OldBalance, OldBalanceView, Trailer, TrailerView, spec_code_ok,
    spec_free_comment_err, spec_free_comment_fields_ok, spec_free_comment_view, spec_header_err,
    spec_header_fields_ok, spec_header_ok, spec_header_view, spec_movement_err,
    spec_movement_fields_ok, spec_movement_ok, spec_movement_view, spec_new_balance_err,
    spec_new_balance_fields_ok, spec_new_balance_ok, spec_new_balance_view, spec_old_balance_err,
    spec_old_balance_fields_ok, spec_old_balance_ok, spec_old_balance_view, spec_trailer_err,
    spec_trailer_fields_ok, spec_trailer_view,
};

verus! {

/// The states of the document assembler.
#[derive(Clone, Copy, Debug, PartialEq, Eq, Structural)]
pub enum ParseState {
    ExpectHeader,
    ExpectOldBalance,
    InBody,
    ExpectTrailerOrEnd,
    Done,
}

/// A fully assembled statement document: exactly one header and old
/// balance, the body records in file order, exactly one new balance, an
/// optional trailer, and the line numbers of skipped unrecognized lines.
#[derive(Clone, Debug)]
pub struct Coda {
    pub header: Header,
    pub old_balance: OldBalance,
    pub body: Vec<BodyRecord>,
    pub new_balance: NewBalance,
    pub trailer: Option<Trailer>,
    pub warnings: Vec<usize>,
}

/// Mathematical view of a [`Coda`].
#[verifier::ext_equal]
pub struct CodaView {
    pub header: HeaderView,
    pub old_balance: OldBalanceView,
    pub body: Seq<BodyRecordView>,
    pub new_balance: NewBalanceView,
    pub trailer: Option<TrailerView>,
    pub warnings: Seq<usize>,
}

impl View for Coda {
    type V = CodaView;

    open spec fn view(&self) -> CodaView {
        CodaView {
            header: self.header@,
            old_balance: self.old_balance@,
            body: body_views(self.body@),
            new_balance: self.new_balance@,
            trailer: match self.trailer {
                Some(t) => Some(t@),
                None => None,
            },
            warnings: self.warnings@,
        }
    }
}

/// The views of a sequence of lines.
pub open spec fn line_views(lines: Seq<String>) -> Seq<Seq<char>> {
    lines.map_values(|s: String| s@)
}

/// The views of a sequence of body records.
pub open spec fn body_views(body: Seq<BodyRecord>) -> Seq<BodyRecordView> {
    body.map_values(|b: BodyRecord| b@)
}

/// The 1-based number of the line at index `i`.
pub open spec fn spec_line_number(i: int) -> usize {
    (i + 1) as usize
}

/// The truncation error for an input of `lines`: the input ended after
/// `lines.len()` lines with the document still incomplete.
pub open spec fn spec_truncated(lines: Seq<Seq<char>>) -> CodaErrorView {
    CodaErrorView::Structure(StructuralError::Truncated { line_number: lines.len() as usize })
}

/// The machine in state `ExpectHeader` at line index `i`: empty lines are
/// passed over; the first non-empty line must be a header.
pub open spec fn assemble_header(lines: Seq<Seq<char>>, i: int, warnings: Seq<usize>) -> Result<
    CodaView,
    CodaErrorView,
>
    decreases lines.len() - i,
{
    if i < 0 || i >= lines.len() {
        Err(spec_truncated(lines))
    } else {
        let l = lines[i];
        if l.len() == 0 {
            assemble_header(lines, i + 1, warnings)
        } else if !spec_code_ok(l, '0') {
            Err(
                CodaErrorView::Structure(
                    StructuralError::Missing {
                        expected: RecordKind::Header,
                        line_number: spec_line_number(i),
                    },
                ),
            )
        } else if !spec_header_fields_ok(l) {
            Err(
                CodaErrorView::Record {
                    kind: RecordKind::Header,
                    line_number: spec_line_number(i) as int,
                    cause: spec_header_err(l),
                },
            )
        } else {
            assemble_old_balance(lines, i + 1, spec_header_view(l), warnings)
        }
    }
}

/// The machine in state `ExpectOldBalance` at line index `i`: the line must
/// be an old balance.
pub open spec fn assemble_old_balance(
    lines: Seq<Seq<char>>,
    i: int,
    header: HeaderView,
    warnings: Seq<usize>,
) -> Result<CodaView, CodaErrorView>
    decreases lines.len() - i,
{
    if i < 0 || i >= lines.len() {
        Err(spec_truncated(lines))
    } else {
        let l = lines[i];
        if !spec_code_ok(l, '1') {
            Err(
                CodaErrorView::Structure(
                    StructuralError::Missing {
                        expected: RecordKind::OldBalance,
                        line_number: spec_line_number(i),
                    },
                ),
            )
        } else if !spec_old_balance_fields_ok(l) {
            Err(
                CodaErrorView::Record {
                    kind: RecordKind::OldBalance,
                    line_number: spec_line_number(i) as int,
                    cause: spec_old_balance_err(l),
                },
            )
        } else {
            assemble_body(lines, i + 1, header, spec_old_balance_view(l), Seq::empty(), warnings)
        }
    }
}

/// The machine in state `InBody` at line index `i`: movements and free
/// comments accumulate, a new balance closes the body, any other type code
/// is skipped with a warning.
pub open spec fn assemble_body(
    lines: Seq<Seq<char>>,
    i: int,
    header: HeaderView,
    old_balance: OldBalanceView,
    body: Seq<BodyRecordView>,
    warnings: Seq<usize>,
) -> Result<CodaView, CodaErrorView>
    decreases lines.len() - i,
{
    if i < 0 || i >= lines.len() {
        Err(spec_truncated(lines))
    } else {
        let l = lines[i];
        if spec_code_ok(l, '2') {
            if !spec_movement_fields_ok(l) {
                Err(
                    CodaErrorView::Record {
                        kind: RecordKind::Movement,
                        line_number: spec_line_number(i) as int,
                        cause: spec_movement_err(l),
                    },
                )
            } else {
                assemble_body(
                    lines,
                    i + 1,
                    header,
                    old_balance,
                    body.push(BodyRecordView::Movement(spec_movement_view(l))),
                    warnings,
                )
            }
        } else if spec_code_ok(l, '4') {
            if !spec_free_comment_fields_ok(l) {
                Err(
                    CodaErrorView::Record {
                        kind: RecordKind::FreeComment,
                        line_number: spec_line_number(i) as int,
                        cause: spec_free_comment_err(l),
                    },
                )
            } else {
                assemble_body(
                    lines,
                    i + 1,
                    header,
                    old_balance,
                    body.push(BodyRecordView::FreeComment(spec_free_comment_view(l))),
                    warnings,
                )
            }
        } else if spec_code_ok(l, '8') {
            if !spec_new_balance_fields_ok(l) {
                Err(
                    CodaErrorView::Record {
                        kind: RecordKind::NewBalance,
                        line_number: spec_line_number(i) as int,
                        cause: spec_new_balance_err(l),
                    },
                )
            } else {
                assemble_trailer(
                    lines,
                    i + 1,
                    header,
                    old_balance,
                    body,
                    spec_new_balance_view(l),
                    warnings,
                )
            }
        } else {
            assemble_body(lines, i + 1, header, old_balance, body, warnings.push(spec_line_number(i)))
        }
    }
}

/// The machine in state `ExpectTrailerOrEnd` at line index `i`: an optional
/// trailer closes the document; other lines are skipped with a warning; the
/// end of the input completes the document.
pub open spec fn assemble_trailer(
    lines: Seq<Seq<char>>,
    i: int,
    header: HeaderView,
    old_balance: OldBalanceView,
    body: Seq<BodyRecordView>,
    new_balance: NewBalanceView,
    warnings: Seq<usize>,
) -> Result<CodaView, CodaErrorView>
    decreases lines.len() - i,
{
    if i < 0 || i >= lines.len() {
        Ok(
            CodaView {
                header,
                old_balance,
                body,
                new_balance,
                trailer: None,
                warnings,
            },
        )
    } else {
        let l = lines[i];
        if spec_code_ok(l, '9') {
            if !spec_trailer_fields_ok(l) {
                Err(
                    CodaErrorView::Record {
                        kind: RecordKind::Trailer,
                        line_number: spec_line_number(i) as int,
                        cause: spec_trailer_err(l),
                    },
                )
            } else {
                assemble_done(
                    lines,
                    i + 1,
                    CodaView {
                        header,
                        old_balance,
                        body,
                        new_balance,
                        trailer: Some(spec_trailer_view(l)),
                        warnings,
                    },
                )
            }
        } else {
            assemble_trailer(
                lines,
                i + 1,
                header,
                old_balance,
                body,
                new_balance,
                warnings.push(spec_line_number(i)),
            )
        }
    }
}

/// The machine in state `Done` at line index `i`: the document is complete;
/// any further lines are skipped with a warning.
pub open spec fn assemble_done(lines: Seq<Seq<char>>, i: int, doc: CodaView) -> Result<
    CodaView,
    CodaErrorView,
>
    decreases lines.len() - i,
{
    if i < 0 || i >= lines.len() {
        Ok(doc)
    } else {
        assemble_done(
            lines,
            i + 1,
            CodaView {
                header: doc.header,
                old_balance: doc.old_balance,
                body: doc.body,
                new_balance: doc.new_balance,
                trailer: doc.trailer,
                warnings: doc.warnings.push(spec_line_number(i)),
            },
        )
    }
}

/// The document, or the first fatal error, that a sequence of lines
/// denotes.
pub open spec fn spec_parse(lines: Seq<Seq<char>>) -> Result<CodaView, CodaErrorView> {
    assemble_header(lines, 0, Seq::empty())
}

/// A document whose line after a well-formed header is not an old-balance
/// line fails with a structural error naming the expected old balance and
/// the observed line number.
pub proof fn lemma_missing_old_balance(lines: Seq<Seq<char>>)
    requires
        lines.len() >= 2,
        spec_header_ok(lines[0]),
        !spec_code_ok(lines[1], '1'),
    ensures
        spec_parse(lines) == Err::<CodaView, CodaErrorView>(
            CodaErrorView::Structure(
                StructuralError::Missing { expected: RecordKind::OldBalance, line_number: 2 },
            ),
        ),
{
    assert(lines[0].len() >= 1);
}

/// A body that never reaches a new-balance line runs to the end of the
/// input and the document is reported truncated, whatever movements, free
/// comments and skipped lines the body holds.
pub proof fn lemma_body_without_new_balance_truncates(
    lines: Seq<Seq<char>>,
    i: int,
    header: HeaderView,
    old_balance: OldBalanceView,
    body: Seq<BodyRecordView>,
    warnings: Seq<usize>,
)
    requires
        0 <= i <= lines.len(),
        forall|j: int| i <= j < lines.len() ==> !spec_code_ok(#[trigger] lines[j], '8'),
        forall|j: int|
            i <= j < lines.len() ==> (spec_code_ok(#[trigger] lines[j], '2')
                ==> spec_movement_fields_ok(lines[j])),
        forall|j: int|
            i <= j < lines.len() ==> (spec_code_ok(#[trigger] lines[j], '4')
                ==> spec_free_comment_fields_ok(lines[j])),
    ensures
        assemble_body(lines, i, header, old_balance, body, warnings) == Err::<
            CodaView,
            CodaErrorView,
        >(spec_truncated(lines)),
    decreases lines.len() - i,
{
    if i < lines.len() {
        let l = lines[i];
        if spec_code_ok(l, '2') {
            lemma_body_without_new_balance_truncates(
                lines,
                i + 1,
                header,
                old_balance,
                body.push(BodyRecordView::Movement(spec_movement_view(l))),
                warnings,
            );
        } else if spec_code_ok(l, '4') {
            lemma_body_without_new_balance_truncates(
                lines,
                i + 1,
                header,
                old_balance,
                body.push(BodyRecordView::FreeComment(spec_free_comment_view(l))),
                warnings,
            );
        } else {
            lemma_body_without_new_balance_truncates(
                lines,
                i + 1,
                header,
                old_balance,
                body,
                warnings.push(spec_line_number(i)),
            );
        }
    }
}

/// The movement records that the lines at indices `i` up to `end` denote,
/// in file order.
pub open spec fn movement_views(lines: Seq<Seq<char>>, i: int, end: int) -> Seq<BodyRecordView> {
    Seq::new(
        if end >= i {
            (end - i) as nat
        } else {
            0
        },
        |k: int| BodyRecordView::Movement(spec_movement_view(lines[i + k])),
    )
}

/// A body of well-formed movement lines closed by a well-formed new-balance
/// line accumulates exactly those movements, in file order.
pub proof fn lemma_body_of_movements(
    lines: Seq<Seq<char>>,
    i: int,
    header: HeaderView,
    old_balance: OldBalanceView,
    body: Seq<BodyRecordView>,
    warnings: Seq<usize>,
)
    requires
        0 <= i <= lines.len() - 1,
        forall|j: int| i <= j < lines.len() - 1 ==> spec_movement_ok(#[trigger] lines[j]),
        spec_new_balance_ok(lines[lines.len() - 1]),
    ensures
        assemble_body(lines, i, header, old_balance, body, warnings) == Ok::<
            CodaView,
            CodaErrorView,
        >(
            CodaView {
                header,
                old_balance,
                body: body + movement_views(lines, i, lines.len() - 1),
                new_balance: spec_new_balance_view(lines[lines.len() - 1]),
                trailer: None,
                warnings,
            },
        ),
    decreases lines.len() - i,
{
    let last = lines.len() - 1;
    if i == last {
        assert(body + movement_views(lines, i, last) =~= body);
    } else {
        let rec = BodyRecordView::Movement(spec_movement_view(lines[i]));
        lemma_body_of_movements(lines, i + 1, header, old_balance, body.push(rec), warnings);
        assert(body.push(rec) + movement_views(lines, i + 1, last) =~= body + movement_views(
            lines,
            i,
            last,
        ));
    }
}

/// A well-shaped statement — a header line, an old-balance line, a run of
/// movement lines, and a final new-balance line — assembles into the
/// document made of exactly those lines' records, with the body in file
/// order, no trailer and no warnings.
pub proof fn lemma_well_shaped_document_parses(lines: Seq<Seq<char>>)
    requires
        lines.len() >= 3,
        spec_header_ok(lines[0]),
        spec_old_balance_ok(lines[1]),
        forall|j: int| 2 <= j < lines.len() - 1 ==> spec_movement_ok(#[trigger] lines[j]),
        spec_new_balance_ok(lines[lines.len() - 1]),
    ensures
        spec_parse(lines) == Ok::<CodaView, CodaErrorView>(
            CodaView {
                header: spec_header_view(lines[0]),
                old_balance: spec_old_balance_view(lines[1]),
                body: movement_views(lines, 2, lines.len() - 1),
                new_balance: spec_new_balance_view(lines[lines.len() - 1]),
                trailer: None,
                warnings: Seq::empty(),
            },
        ),
{
    assert(lines[0].len() >= 1);
    lemma_body_of_movements(
        lines,
        2,
        spec_header_view(lines[0]),
        spec_old_balance_view(lines[1]),
        Seq::empty(),
        Seq::empty(),
    );
    assert(Seq::<BodyRecordView>::empty() + movement_views(lines, 2, lines.len() - 1)
        =~= movement_views(lines, 2, lines.len() - 1));
}

/// A document whose body consists of movements only — its final line
/// included — never reaches a new balance and fails as truncated; no
/// partial document is returned.
pub proof fn lemma_truncated_document(lines: Seq<Seq<char>>)
    requires
        lines.len() >= 2,
        spec_header_ok(lines[0]),
        spec_old_balance_ok(lines[1]),
        forall|j: int| 2 <= j < lines.len() ==> spec_movement_ok(#[trigger] lines[j]),
    ensures
        spec_parse(lines) == Err::<CodaView, CodaErrorView>(spec_truncated(lines)),
{
    assert(lines[0].len() >= 1);
    assert(forall|j: int| 2 <= j < lines.len() ==> !spec_code_ok(#[trigger] lines[j], '8'));
    lemma_body_without_new_balance_truncates(
        lines,
        2,
        spec_header_view(lines[0]),
        spec_old_balance_view(lines[1]),
        Seq::empty(),
        Seq::empty(),
    );
}

impl Coda {
    /// Assembles a document from the lines of a statement file, or returns
    /// the first fatal error.
    pub fn parse(lines: &Vec<String>) -> (r: Result<Coda, CodaError>)
        ensures
            ({
                let lv = line_views(lines@);
                match r {
                    Ok(c) => spec_parse(lv) == Ok::<CodaView, CodaErrorView>(c@),
                    Err(e) => spec_parse(lv) == Err::<CodaView, CodaErrorView>(e@),
                }
            }),
    {
        let ghost lv = line_views(lines@);
        let ghost goal = spec_parse(lv);
        let n = lines.len();
        let mut i: usize = 0;
        let mut state = ParseState::ExpectHeader;
        let mut header: Option<Header> = None;
        let mut old_balance: Option<OldBalance> = None;
        let mut body: Vec<BodyRecord> = Vec::new();
        let mut new_balance: Option<NewBalance> = None;
        let mut trailer: Option<Trailer> = None;
        let mut warnings: Vec<usize> = Vec::new();
        proof {
            assert(body_views(body@) =~= Seq::<BodyRecordView>::empty());
            assert(warnings@ =~= Seq::<usize>::empty());
        }
        while i < n
            invariant
                n == lines.len(),
                lv == line_views(lines@),
                lv.len() == n,
                goal == spec_parse(lv),
                0 <= i <= n,
                (state == ParseState::ExpectHeader || state == ParseState::ExpectOldBalance)
                    ==> body@ == Seq::<BodyRecord>::empty(),
                state != ParseState::Done ==> trailer is None,
                state == ParseState::ExpectHeader ==> assemble_header(lv, i as int, warnings@)
                    == goal,
                state == ParseState::ExpectOldBalance ==> (header matches Some(h)
                    && assemble_old_balance(lv, i as int, h@, warnings@) == goal),
                state == ParseState::InBody ==> (header matches Some(h)
                    && old_balance matches Some(ob) && assemble_body(
                    lv,
                    i as int,
                    h@,
                    ob@,
                    body_views(body@),
                    warnings@,
                ) == goal),
                state == ParseState::ExpectTrailerOrEnd ==> (header matches Some(h)
                    && old_balance matches Some(ob) && new_balance matches Some(nb)
                    && assemble_trailer(
                    lv,
                    i as int,
                    h@,
                    ob@,
                    body_views(body@),
                    nb@,
                    warnings@,
                ) == goal),
                state == ParseState::Done ==> (header matches Some(h) && old_balance matches Some(
                    ob,
                ) && new_balance matches Some(nb) && trailer matches Some(t) && assemble_done(
                    lv,
                    i as int,
                    (CodaView {
                        header: h@,
                        old_balance: ob@,
                        body: body_views(body@),
                        new_balance: nb@,
                        trailer: Some(t@),
                        warnings: warnings@,
                    }),
                ) == goal),
            decreases n - i,
        {
            let line = &lines[i];
            proof {
                assert(lv[i as int] == lines@[i as int]@);
            }
            match state {
                ParseState::ExpectHeader => {
                    if line.as_str().unicode_len() > 0 {
                        match Header::parse(line.as_str()) {
                            Ok(h) => {
                                header = Some(h);
                                state = ParseState::ExpectOldBalance;
                            },
                            Err(RecordError::Dispatch { .. }) => {
                                return Err(
                                    CodaError::Structure(
                                        StructuralError::Missing {
                                            expected: RecordKind::Header,
                                            line_number: i + 1,
                                        },
                                    ),
                                );
                            },
                            Err(RecordError::Field(e)) => {
                                return Err(
                                    CodaError::Record {
                                        kind: RecordKind::Header,
                                        line_number: i + 1,
                                        cause: e,
                                    },
                                );
                            },
                        }
                    }
                },
                ParseState::ExpectOldBalance => {
                    match OldBalance::parse(line.as_str()) {
                        Ok(ob) => {
                            proof {
                                assert(body_views(body@) =~= Seq::<BodyRecordView>::empty());
                            }
                            old_balance = Some(ob);
                            state = ParseState::InBody;
                        },
                        Err(RecordError::Dispatch { .. }) => {
                            return Err(
                                CodaError::Structure(
                                    StructuralError::Missing {
                                        expected: RecordKind::OldBalance,
                                        line_number: i + 1,
                                    },
                                ),
                            );
                        },
                        Err(RecordError::Field(e)) => {
                            return Err(
                                CodaError::Record {
                                    kind: RecordKind::OldBalance,
                                    line_number: i + 1,
                                    cause: e,
                                },
                            );
                        },
                    }
                },
                ParseState::InBody => {
                    let ghost body0 = body_views(body@);
                    match Movement::parse(line.as_str()) {
                        Ok(m) => {
                            let rec = BodyRecord::Movement(m);
                            proof {
                                assert(body_views(body@.push(rec)) =~= body0.push(
                                    rec@,
                                ));
                            }
                            body.push(rec);
                        },
                        Err(RecordError::Field(e)) => {
                            return Err(
                                CodaError::Record {
                                    kind: RecordKind::Movement,
                                    line_number: i + 1,
                                    cause: e,
                                },
                            );
                        },
                        Err(RecordError::Dispatch { .. }) => {
                            match FreeComment::parse(line.as_str()) {
                                Ok(c) => {
                                    let rec = BodyRecord::FreeComment(c);
                                    proof {
                                        assert(body_views(body@.push(rec))
                                            =~= body0.push(rec@));
                                    }
                                    body.push(rec);
                                },
                                Err(RecordError::Field(e)) => {
                                    return Err(
                                        CodaError::Record {
                                            kind: RecordKind::FreeComment,
                                            line_number: i + 1,
                                            cause: e,
                                        },
                                    );
                                },
                                Err(RecordError::Dispatch { .. }) => {
                                    match NewBalance::parse(line.as_str()) {
                                        Ok(nb) => {
                                            new_balance = Some(nb);
                                            state = ParseState::ExpectTrailerOrEnd;
                                        },
                                        Err(RecordError::Field(e)) => {
                                            return Err(
                                                CodaError::Record {
                                                    kind: RecordKind::NewBalance,
                                                    line_number: i + 1,
                                                    cause: e,
                                                },
                                            );
                                        },
                                        Err(RecordError::Dispatch { .. }) => {
                                            warnings.push(i + 1);
                                        },
                                    }
                                },
                            }
                        },
                    }
                },
                ParseState::ExpectTrailerOrEnd => {
                    match Trailer::parse(line.as_str()) {
                        Ok(t) => {
                            trailer = Some(t);
                            state = ParseState::Done;
                        },
                        Err(RecordError::Field(e)) => {
                            return Err(
                                CodaError::Record {
                                    kind: RecordKind::Trailer,
                                    line_number: i + 1,
                                    cause: e,
                                },
                            );
                        },
                        Err(RecordError::Dispatch { .. }) => {
                            warnings.push(i + 1);
                        },
                    }
                },
                ParseState::Done => {
                    warnings.push(i + 1);
                },
            }
            i = i + 1;
        }
        match state {
            ParseState::ExpectHeader | ParseState::ExpectOldBalance | ParseState::InBody => {
                Err(CodaError::Structure(StructuralError::Truncated { line_number: n }))
            },
            ParseState::ExpectTrailerOrEnd | ParseState::Done => {
                let h = match header {
                    Some(h) => h,
                    None => {
                        proof {
                            assert(false);
                        }
                        return Err(
                            CodaError::Structure(StructuralError::Truncated { line_number: n }),
                        );
                    },
                };
                let ob = match old_balance {
                    Some(ob) => ob,
                    None => {
                        proof {
                            assert(false);
                        }
                        return Err(
                            CodaError::Structure(StructuralError::Truncated { line_number: n }),
                        );
                    },
                };
                let nb = match new_balance {
                    Some(nb) => nb,
                    None => {
                        proof {
                            assert(false);
                        }
                        return Err(
                            CodaError::Structure(StructuralError::Truncated { line_number: n }),
                        );
                    },
                };
                Ok(
                    Coda {
                        header: h,
                        old_balance: ob,
                        body,
                        new_balance: nb,
                        trailer,
                        warnings,
                    },
                )
            },
        }
    }
}

} // verus!
