//! The report of a segment.

use vstd::prelude::*;
use crate::macho::error::views;
use crate::reporting::sections::{SectionReport, SectionReportModel};

verus! {

/// A segment as it is reported, with its sections.
#[derive(Debug)]
pub struct SegmentReport {
    pub name: String,
    pub vmaddr: u64,
    pub vmsize: u64,
    pub fileoff: u64,
    pub filesize: u64,
    /// The most that the segment may be allowed, as `R`, `W` and `X`.
    pub maxprot: String,
    /// What the segment is allowed at first.
    pub initprot: String,
    pub sections: Vec<SectionReport>,
}

/// What the report of a segment holds.
pub struct SegmentReportModel {
    pub name: Seq<char>,
    pub vmaddr: u64,
    pub vmsize: u64,
    pub fileoff: u64,
    pub filesize: u64,
    pub maxprot: Seq<char>,
    pub initprot: Seq<char>,
    pub sections: Seq<SectionReportModel>,
}

impl View for SegmentReport {
    type V = SegmentReportModel;

    open spec fn view(&self) -> SegmentReportModel {
        SegmentReportModel {
            name: self.name@,
            vmaddr: self.vmaddr,
            vmsize: self.vmsize,
            fileoff: self.fileoff,
            filesize: self.filesize,
            maxprot: self.maxprot@,
            initprot: self.initprot@,
            sections: views(self.sections@),
        }
    }
}

} // verus!
