//! The report of a run path.

use vstd::prelude::*;

verus! {

/// A run path as it is reported.
#[derive(Debug)]
pub struct RPathsReport {
    /// The name of the command that the path came from.
    pub source_lc: String,
    pub path: String,
}

/// What the report of a run path holds.
pub struct RPathsReportModel {
    pub source_lc: Seq<char>,
    pub path: Seq<char>,
}

impl View for RPathsReport {
    type V = RPathsReportModel;

    open spec fn view(&self) -> RPathsReportModel {
        RPathsReportModel {
            source_lc: self.source_lc@,
            path: self.path@,
        }
    }
}

} // verus!
