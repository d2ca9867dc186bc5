//! The report of a library that an image depends on.

use vstd::prelude::*;
use crate::reporting::load_commands::{LoadCommandReport, LoadCommandReportModel};

verus! {

/// A library as it is reported.
#[derive(Debug)]
pub struct DylibReport {
    pub path: String,
    pub timestamp: u32,
    pub current_version: u32,
    pub compatibility_version: u32,
    /// The kind of dependency in capitals.
    pub kind: String,
    /// The command that named the library.
    pub load_command: LoadCommandReport,
}

/// What the report of a library holds.
pub struct DylibReportModel {
    pub path: Seq<char>,
    pub timestamp: u32,
    pub current_version: u32,
    pub compatibility_version: u32,
    pub kind: Seq<char>,
    pub load_command: LoadCommandReportModel,
}

impl View for DylibReport {
    type V = DylibReportModel;

    open spec fn view(&self) -> DylibReportModel {
        DylibReportModel {
            path: self.path@,
            timestamp: self.timestamp,
            current_version: self.current_version,
            compatibility_version: self.compatibility_version,
            kind: self.kind@,
            load_command: self.load_command@,
        }
    }
}

} // verus!
