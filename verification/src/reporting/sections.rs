//! The report of a section.

use vstd::prelude::*;

verus! {

/// A section as it is reported.
#[derive(Debug)]
pub struct SectionReport {
    pub name: String,
    pub segment: String,
    pub kind: String,
    pub addr: u64,
    pub size: u64,
}

/// What the report of a section holds.
pub struct SectionReportModel {
    pub name: Seq<char>,
    pub segment: Seq<char>,
    pub kind: Seq<char>,
    pub addr: u64,
    pub size: u64,
}

impl View for SectionReport {
    type V = SectionReportModel;

    open spec fn view(&self) -> SectionReportModel {
        SectionReportModel {
            name: self.name@,
            segment: self.segment@,
            kind: self.kind@,
            addr: self.addr,
            size: self.size,
        }
    }
}

} // verus!
