//! Decision logic of one translation-unit parse and of a batch over a
//! compilation database.
//!
//! The analyzer performs the actual work; this module decides. A caller
//! that drives the analyzer reports what happened as an [`AnalyzerReply`]
//! — index creation failed, the parse call returned a non-zero result
//! code, or it succeeded and the raw cursor snapshot was read — and the
//! functions here turn file name and reply into the typed result the
//! library promises: every input error and analyzer-reported failure
//! surfaces as exactly one [`ParsingError`], a success as the projected
//! tree. A file name the analyzer's string encoding cannot represent
//! (one with an interior NUL character) is rejected before anything
//! else, so the analyzer need never be invoked for it.

use vstd::prelude::*;

use crate::codes;
use crate::tree::Entry;
use crate::tree::EntryView;
use crate::tree::RawNode;
use crate::tree::RawNodeView;
use crate::tree::ast_of;
use crate::tree::get_ast;
use crate::tree::raw_seq_view;
use crate::database::CompilationDatabase;

verus! {

/// Why a parse did not produce a tree: input errors, per-parse resource
/// failures, and the analyzer's own failure codes, one variant each.
#[derive(Debug, PartialEq, Eq, Clone)]
pub enum ParsingError {
    FileNameConversionProblem(String),
    IndexCreationFailure,
    GenericFailure(String),
    Crash(String),
    InvalidArguments(String),
    ASTReadError(String),
    UnknownError(i32),
}

/// Mathematical image of a [`ParsingError`].
#[verifier::ext_equal]
pub enum ParsingErrorView {
    FileNameConversionProblem(Seq<char>),
    IndexCreationFailure,
    GenericFailure(Seq<char>),
    Crash(Seq<char>),
    InvalidArguments(Seq<char>),
    ASTReadError(Seq<char>),
    UnknownError(i32),
}

impl View for ParsingError {
    type V = ParsingErrorView;

    open spec fn view(&self) -> ParsingErrorView {
        match self {
            ParsingError::FileNameConversionProblem(f) => ParsingErrorView::FileNameConversionProblem(
                f@,
            ),
            ParsingError::IndexCreationFailure => ParsingErrorView::IndexCreationFailure,
            ParsingError::GenericFailure(f) => ParsingErrorView::GenericFailure(f@),
            ParsingError::Crash(f) => ParsingErrorView::Crash(f@),
            ParsingError::InvalidArguments(f) => ParsingErrorView::InvalidArguments(f@),
            ParsingError::ASTReadError(f) => ParsingErrorView::ASTReadError(f@),
            ParsingError::UnknownError(c) => ParsingErrorView::UnknownError(*c),
        }
    }
}

/// What the analyzer did for one parse, as its caller observed it:
/// index creation failed; the parse call returned the given non-zero
/// result code; or it succeeded and the translation unit's top-level
/// cursors were read into a raw snapshot.
#[derive(Debug, PartialEq, Eq)]
pub enum AnalyzerReply {
    IndexFailed,
    ParseFailed(i32),
    ParseSucceeded(Vec<RawNode>),
}

/// Mathematical image of an [`AnalyzerReply`].
#[verifier::ext_equal]
pub enum AnalyzerReplyView {
    IndexFailed,
    ParseFailed(i32),
    ParseSucceeded(Seq<RawNodeView>),
}

impl View for AnalyzerReply {
    type V = AnalyzerReplyView;

    open spec fn view(&self) -> AnalyzerReplyView {
        match self {
            AnalyzerReply::IndexFailed => AnalyzerReplyView::IndexFailed,
            AnalyzerReply::ParseFailed(code) => AnalyzerReplyView::ParseFailed(*code),
            AnalyzerReply::ParseSucceeded(raw) => AnalyzerReplyView::ParseSucceeded(
                raw_seq_view(raw@),
            ),
        }
    }
}

/// A file name is representable in the analyzer's string encoding
/// exactly when it has no interior NUL character.
pub open spec fn valid_file_name(s: Seq<char>) -> bool {
    forall|i: int| 0 <= i < s.len() ==> s[i] != '\0'
}

/// The typed error a non-zero parse result code denotes for `file`.
pub open spec fn parse_error_of(code: i32, file: Seq<char>) -> ParsingErrorView {
    if code == codes::RESULT_FAILURE {
        ParsingErrorView::GenericFailure(file)
    } else if code == codes::RESULT_CRASHED {
        ParsingErrorView::Crash(file)
    } else if code == codes::RESULT_INVALID_ARGUMENTS {
        ParsingErrorView::InvalidArguments(file)
    } else if code == codes::RESULT_AST_READ_ERROR {
        ParsingErrorView::ASTReadError(file)
    } else {
        ParsingErrorView::UnknownError(code)
    }
}

/// The result one parse owes its caller, as a function of the file name
/// and the analyzer's reply: an unrepresentable file name is rejected
/// first, without the analyzer; then index failure, the analyzer's own
/// failure codes, and on success the projected tree.
pub open spec fn parse_result_of(file: Seq<char>, reply: AnalyzerReplyView) -> Result<
    EntryView,
    ParsingErrorView,
> {
    if !valid_file_name(file) {
        Err(ParsingErrorView::FileNameConversionProblem(file))
    } else {
        match reply {
            AnalyzerReplyView::IndexFailed => Err(ParsingErrorView::IndexCreationFailure),
            AnalyzerReplyView::ParseFailed(code) => Err(parse_error_of(code, file)),
            AnalyzerReplyView::ParseSucceeded(raw) => Ok(ast_of(raw)),
        }
    }
}

/// The image of one unit's result.
pub open spec fn unit_view(r: Result<TU, ParsingError>) -> Result<EntryView, ParsingErrorView> {
    match r {
        Ok(tu) => Ok(tu@),
        Err(e) => Err(e@),
    }
}

/// One parsed translation unit: the owned tree, and nothing else — the
/// analyzer's resources are released by the caller that drove the parse
/// before the unit is handed on, so the tree outlives them.
#[derive(Debug, PartialEq, Eq)]
pub struct TU {
    ast: Entry,
}

impl View for TU {
    type V = EntryView;

    closed spec fn view(&self) -> EntryView {
        self.ast@
    }
}

/// Maps a non-zero parse result code to its typed error.
fn parse_failure(code: i32, file_name: String) -> (e: ParsingError)
    ensures
        e@ == parse_error_of(code, file_name@),
{
    if code == codes::RESULT_FAILURE {
        ParsingError::GenericFailure(file_name)
    } else if code == codes::RESULT_CRASHED {
        ParsingError::Crash(file_name)
    } else if code == codes::RESULT_INVALID_ARGUMENTS {
        ParsingError::InvalidArguments(file_name)
    } else if code == codes::RESULT_AST_READ_ERROR {
        ParsingError::ASTReadError(file_name)
    } else {
        ParsingError::UnknownError(code)
    }
}

/// Returns whether the analyzer's string encoding can represent the
/// file name, that is, whether it has no interior NUL character.
pub fn file_name_representable(file_name: &String) -> (b: bool)
    ensures
        b == valid_file_name(file_name@),
{
    let chars = crate::text::chars_of(file_name.as_str());
    let mut i: usize = 0;
    while i < chars.len()
        invariant
            i <= chars@.len(),
            chars@ == file_name@,
            forall|j: int| 0 <= j < i ==> chars@[j] != '\0',
        decreases chars@.len() - i,
    {
        if chars[i] == '\0' {
            return false;
        }
        i += 1;
    }
    true
}

impl TU {
    /// Settles one parse from the file name and the analyzer's reply.
    ///
    /// A file name with an interior NUL is rejected as
    /// `FileNameConversionProblem` before the reply is even looked at —
    /// a caller that validates the name first therefore never has to
    /// invoke the analyzer for it. Otherwise the reply decides: index
    /// failure, the analyzer's failure codes mapped one to one, or the
    /// snapshot projected into the owned tree.
    pub fn new(file_name: String, reply: AnalyzerReply) -> (r: Result<TU, ParsingError>)
        requires
            reply matches AnalyzerReply::ParseFailed(code) ==> code != codes::RESULT_SUCCESS,
        ensures
            unit_view(r) == parse_result_of(file_name@, reply@),
    {
        if !file_name_representable(&file_name) {
            return Err(ParsingError::FileNameConversionProblem(file_name));
        }
        match reply {
            AnalyzerReply::IndexFailed => Err(ParsingError::IndexCreationFailure),
            AnalyzerReply::ParseFailed(code) => Err(parse_failure(code, file_name)),
            AnalyzerReply::ParseSucceeded(raw) => Ok(TU { ast: get_ast(&raw) }),
        }
    }

    /// The parsed tree.
    pub fn ast(&self) -> (r: &Entry)
        ensures
            r@ == self@,
    {
        &self.ast
    }
}

/// What one batch task reported: the file it parsed and the analyzer's
/// reply for it, in completion order.
#[derive(Debug, PartialEq, Eq)]
pub struct UnitReport {
    pub file: String,
    pub reply: AnalyzerReply,
}

/// Mathematical image of a [`UnitReport`].
#[verifier::ext_equal]
pub struct UnitReportView {
    pub file: Seq<char>,
    pub reply: AnalyzerReplyView,
}

impl View for UnitReport {
    type V = UnitReportView;

    open spec fn view(&self) -> UnitReportView {
        UnitReportView { file: self.file@, reply: self.reply@ }
    }
}

/// The result one batch task's report settles to. A task whose own
/// index could not be created fails alone — its report becomes that
/// one command's `IndexCreationFailure` result, never a batch abort.
pub open spec fn report_result_of(rep: UnitReportView) -> Result<EntryView, ParsingErrorView> {
    parse_result_of(rep.file, rep.reply)
}

/// The results of a sequence of translation units, element-wise.
pub open spec fn units_view(units: Seq<Result<TU, ParsingError>>) -> Seq<
    Result<EntryView, ParsingErrorView>,
> {
    units.map_values(|u: Result<TU, ParsingError>| unit_view(u))
}

/// Parses driven by one caller: one result per translation unit.
pub struct Source {
    pub translation_units: Vec<Result<TU, ParsingError>>,
}

impl Source {
    /// Settles a single-file parse from the analyzer's reply.
    ///
    /// As in the batch of one that it is, index creation failure is
    /// fatal to the whole call; any other outcome lands as the one
    /// unit's result.
    pub fn from_file(file_name: String, reply: AnalyzerReply) -> (r: Result<Source, ParsingError>)
        requires
            reply matches AnalyzerReply::ParseFailed(code) ==> code != codes::RESULT_SUCCESS,
        ensures
            match r {
                Ok(source) => !(reply@ is IndexFailed) && units_view(source.translation_units@)
                    =~= seq![parse_result_of(file_name@, reply@)],
                Err(e) => reply@ is IndexFailed && e@ == ParsingErrorView::IndexCreationFailure,
            },
    {
        if let AnalyzerReply::IndexFailed = &reply {
            return Err(ParsingError::IndexCreationFailure);
        }
        let mut translation_units: Vec<Result<TU, ParsingError>> = Vec::new();
        translation_units.push(TU::new(file_name, reply));
        proof {
            assert(units_view(translation_units@) =~= seq![
                parse_result_of(file_name@, reply@),
            ]);
        }
        Ok(Source { translation_units })
    }

    /// Settles a batch over a compilation database from the tasks'
    /// reports, one result per command, in the completion order the
    /// reports arrived in — not in the order of the commands.
    ///
    /// The database is consumed: the batch is its one use. Each report
    /// settles independently; no report can abort the batch, so the
    /// call always succeeds with exactly as many results as commands.
    pub fn from_compilation_database(database: CompilationDatabase, reports: Vec<UnitReport>) -> (r:
        Result<Source, ParsingError>)
        requires
            reports@.len() == database.commands@.len(),
            forall|i: int|
                0 <= i < reports@.len() ==> (#[trigger] reports@[i].reply matches
                    AnalyzerReply::ParseFailed(code) ==> code != codes::RESULT_SUCCESS),
        ensures
            r matches Ok(source) && source.translation_units@.len() == database.commands@.len()
                && forall|i: int|
                0 <= i < reports@.len() ==> #[trigger] units_view(
                    source.translation_units@,
                )[i] == report_result_of(reports@[i]@),
    {
        let ghost all = reports@;
        let mut reports = reports;
        let mut translation_units: Vec<Result<TU, ParsingError>> = Vec::new();
        while reports.len() > 0
            invariant
                translation_units@.len() + reports@.len() == all.len(),
                reports@ =~= all.skip(translation_units@.len() as int),
                forall|i: int|
                    0 <= i < all.len() ==> (#[trigger] all[i].reply matches
                        AnalyzerReply::ParseFailed(code) ==> code != codes::RESULT_SUCCESS),
                forall|i: int|
                    0 <= i < translation_units@.len() ==> #[trigger] units_view(
                        translation_units@,
                    )[i] == report_result_of(all[i]@),
            decreases reports@.len(),
        {
            let ghost k = translation_units@.len() as int;
            let report = reports.remove(0);
            proof {
                assert(report == all[k]);
                assert(all.skip(k).remove(0) =~= all.skip(k + 1));
            }
            let unit = TU::new(report.file, report.reply);
            let ghost before = translation_units@;
            translation_units.push(unit);
            proof {
                assert(units_view(translation_units@) =~= units_view(before).push(
                    unit_view(unit),
                ));
            }
        }
        Ok(Source { translation_units })
    }
}

} // verus!
