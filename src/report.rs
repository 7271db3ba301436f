use vstd::prelude::*;

verus! {

/// A lexical error report: the line it was found on, where on that line
/// (empty when not known more precisely) and a message.
#[derive(Debug, PartialEq)]
pub struct ErrorReport {
    pub line: u32,
    pub location: String,
    pub message: String,
}

/// What a report says, as plain values.
pub struct ReportModel {
    pub line: nat,
    pub location: Seq<char>,
    pub message: Seq<char>,
}

impl View for ErrorReport {
    type V = ReportModel;

    open spec fn view(&self) -> ReportModel {
        ReportModel { line: self.line as nat, location: self.location@, message: self.message@ }
    }
}

/// Builds the report of an error found on `line`, with no more precise location.
pub fn error(line: u32, message: &str) -> (r: ErrorReport)
    ensures
        r@ == (ReportModel { line: line as nat, location: Seq::empty(), message: message@ }),
{
    ErrorReport { line, location: String::new(), message: message.to_owned() }
}

} // verus!
