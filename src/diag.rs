//! Diagnostics: a level, a message, the range responsible and an optional fix hint.

use vstd::prelude::*;
use crate::syntax::token::SourceRange;

verus! {

/// How serious a diagnostic is.
#[derive(Copy, Clone, PartialEq, Eq, Structural, Debug)]
pub enum DiagLevel {
    /// Information only; nothing is wrong.
    Note,
    /// A recoverable oddity, such as an unknown escape.
    Warn,
    /// A malformed construct, recovered with a best-effort substitute.
    Error,
    /// A condition that should stop the pipeline.
    Fatal,
}

/// The word a diagnostic of this level is shown with.
pub open spec fn level_name(level: DiagLevel) -> Seq<char> {
    match level {
        DiagLevel::Note => "note"@,
        DiagLevel::Warn => "warning"@,
        DiagLevel::Error => "error"@,
        DiagLevel::Fatal => "fatal"@,
    }
}

impl DiagLevel {
    pub fn as_str(&self) -> (r: &'static str)
        ensures
            r@ == level_name(*self),
    {
        match self {
            DiagLevel::Note => "note",
            DiagLevel::Warn => "warning",
            DiagLevel::Error => "error",
            DiagLevel::Fatal => "fatal",
        }
    }
}

/// A suggested replacement text, with the range it would replace when one is known.
#[derive(Debug)]
pub struct FixHint {
    pub hint_info: String,
    pub hint_source_range: Option<SourceRange>,
}

impl View for FixHint {
    type V = (Seq<char>, Option<SourceRange>);

    open spec fn view(&self) -> (Seq<char>, Option<SourceRange>) {
        (self.hint_info@, self.hint_source_range)
    }
}

impl FixHint {
    pub fn new(hint_info: String, hint_source_range: Option<SourceRange>) -> (r: Self)
        ensures
            r@ == (hint_info@, hint_source_range),
    {
        FixHint { hint_info, hint_source_range }
    }
}

/// A diagnostic seen through the characters of its texts.
pub struct DiagnosticView {
    pub level: DiagLevel,
    pub info: Seq<char>,
    pub source_range: SourceRange,
    pub fix_hint: Option<(Seq<char>, Option<SourceRange>)>,
}

/// A report of something anomalous in the source, at the range responsible for it.
#[derive(Debug)]
pub struct Diagnostic {
    pub level: DiagLevel,
    pub info: String,
    pub source_range: SourceRange,
    pub fix_hint: Option<FixHint>,
}

impl View for Diagnostic {
    type V = DiagnosticView;

    open spec fn view(&self) -> DiagnosticView {
        DiagnosticView {
            level: self.level,
            info: self.info@,
            source_range: self.source_range,
            fix_hint: match self.fix_hint {
                Some(h) => Some(h@),
                None => None,
            },
        }
    }
}

/// A diagnostic without a fix hint.
pub open spec fn plain_report(level: DiagLevel, info: Seq<char>, r: SourceRange) -> DiagnosticView {
    DiagnosticView { level, info, source_range: r, fix_hint: None }
}

impl Diagnostic {
    pub fn new(level: DiagLevel, info: String, source_range: SourceRange) -> (r: Self)
        ensures
            r@ == plain_report(level, info@, source_range),
    {
        Diagnostic { level, info, source_range, fix_hint: None }
    }

    pub fn with_fix_hint(
        level: DiagLevel,
        info: String,
        source_range: SourceRange,
        fix_hint: FixHint,
    ) -> (r: Self)
        ensures
            r@ == (DiagnosticView {
                level,
                info: info@,
                source_range,
                fix_hint: Some(fix_hint@),
            }),
    {
        Diagnostic { level, info, source_range, fix_hint: Some(fix_hint) }
    }
}

} // verus!
