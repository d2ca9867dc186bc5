//! The report of a Mach-O header.

use vstd::prelude::*;
use crate::macho::error::views;

verus! {

/// A header as it is reported, with its numbers turned into names.
#[derive(Debug)]
pub struct MachHeaderReport {
    pub magic: u32,
    pub file_type: String,
    pub cpu_type: String,
    pub cpu_subtype: String,
    pub ncmds: u32,
    pub sizeofcmds: u32,
    /// The names of the flags that are set.
    pub flags: Vec<String>,
}

/// What the report of a header holds.
pub struct MachHeaderReportModel {
    pub magic: u32,
    pub file_type: Seq<char>,
    pub cpu_type: Seq<char>,
    pub cpu_subtype: Seq<char>,
    pub ncmds: u32,
    pub sizeofcmds: u32,
    pub flags: Seq<Seq<char>>,
}

impl View for MachHeaderReport {
    type V = MachHeaderReportModel;

    open spec fn view(&self) -> MachHeaderReportModel {
        MachHeaderReportModel {
            magic: self.magic,
            file_type: self.file_type@,
            cpu_type: self.cpu_type@,
            cpu_subtype: self.cpu_subtype@,
            ncmds: self.ncmds,
            sizeofcmds: self.sizeofcmds,
            flags: views(self.flags@),
        }
    }
}

} // verus!
