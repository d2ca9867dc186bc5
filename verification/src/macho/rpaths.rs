//! The run paths along which the dynamic linker looks for libraries.

use vstd::prelude::*;
use vstd::slice::slice_subrange;
use vstd::utf8::{decode_utf8, valid_utf8};
use crate::macho::constants;
use crate::macho::dylibs::{locate_lc_str, spec_lc_str_bytes, spec_lc_str_error};
use crate::macho::error::{result_is, DecodeError, Stage};
use crate::macho::load_commands::{load_comand_name, spec_load_command_name, LoadCommand};
use crate::reporting::rpaths::{RPathsReport, RPathsReportModel};
use crate::macho::text::{string_from_utf8_lossy, utf8_lossy};

verus! {

/// One run path and the command that it came from.
#[derive(Debug, Clone)]
pub struct ParsedRPath {
    pub source_lc: LoadCommand,
    pub path: String,
}

/// What a decoded run path holds.
pub struct RPathModel {
    pub source_lc: LoadCommand,
    pub path: Seq<char>,
}

impl View for ParsedRPath {
    type V = RPathModel;

    open spec fn view(&self) -> RPathModel {
        RPathModel { source_lc: self.source_lc, path: self.path@ }
    }
}

/// What `parse_rpath` returns.
pub open spec fn spec_parse_rpath(data: Seq<u8>, lc: LoadCommand, is_be: bool) -> Result<
    RPathModel,
    DecodeError,
> {
    match spec_lc_str_error(data, lc, is_be, 12, Stage::RPath) {
        Some(e) => Err(e),
        None => Ok(RPathModel { source_lc: lc, path: utf8_lossy(spec_lc_str_bytes(data, lc, is_be)) }),
    }
}

/// Decodes a run-path command. The path is located as the path of a library
/// command is, and decoded lossily.
pub fn parse_rpath(data: &[u8], lc: &LoadCommand, is_be: bool) -> (r: Result<ParsedRPath, DecodeError>)
    ensures
        result_is(r, spec_parse_rpath(data@, *lc, is_be)),
        r is Ok && valid_utf8(spec_lc_str_bytes(data@, *lc, is_be)) ==> r->Ok_0.path@ == decode_utf8(
            spec_lc_str_bytes(data@, *lc, is_be),
        ),
{
    let (start, n) = locate_lc_str(data, lc, is_be, constants::RPATH_COMMAND_SIZE, Stage::RPath)?;
    let rpath = string_from_utf8_lossy(slice_subrange(data, start, start + n));
    Ok(ParsedRPath { source_lc: *lc, path: rpath })
}

/// What the report of a run path says.
pub open spec fn spec_rpath_report(rpath: RPathModel) -> RPathsReportModel {
    RPathsReportModel { source_lc: spec_load_command_name(rpath.source_lc.cmd), path: rpath.path }
}

impl ParsedRPath {
    /// Reports the run path with the name of the command that it came
    /// from.
    pub fn build_report(&self, _is_json: bool) -> (report: RPathsReport)
        ensures
            report@ == spec_rpath_report(self@),
    {
        RPathsReport {
            source_lc: load_comand_name(self.source_lc.cmd).to_owned(),
            path: self.path.clone(),
        }
    }
}

} // verus!
