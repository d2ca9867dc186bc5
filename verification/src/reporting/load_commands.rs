//! The report of a load command.

use vstd::prelude::*;

verus! {

/// A load command as it is reported: its name, its opcode and its size.
#[derive(Debug)]
pub struct LoadCommandReport {
    pub command: String,
    pub cmd: u32,
    pub size: u32,
}

/// What the report of a load command holds.
pub struct LoadCommandReportModel {
    pub command: Seq<char>,
    pub cmd: u32,
    pub size: u32,
}

impl View for LoadCommandReport {
    type V = LoadCommandReportModel;

    open spec fn view(&self) -> LoadCommandReportModel {
        LoadCommandReportModel {
            command: self.command@,
            cmd: self.cmd,
            size: self.size,
        }
    }
}

} // verus!
