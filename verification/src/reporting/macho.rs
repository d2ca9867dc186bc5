//! The report of a whole file.

use vstd::prelude::*;
use crate::macho::constants::{
    cpu_subtype_name, cpu_type_name, spec_cpu_subtype_name, spec_cpu_type_name,
};
use crate::macho::dylibs::{spec_dylib_report, ParsedDylib};
use crate::macho::error::views;
use crate::macho::header::MachOHeader;
use crate::macho::load_commands::LoadCommand;
use crate::macho::resolve::{is_stable_sort_of, sort_symbols};
use crate::macho::rpaths::{spec_rpath_report, ParsedRPath};
use crate::macho::segments::{spec_segment_report, ParsedSegment};
use crate::macho::symtab::{spec_string_report, spec_symbol_report, ParsedString, ParsedSymbol};
use crate::reporting::dylibs::{DylibReport, DylibReportModel};
use crate::reporting::header::{MachHeaderReport, MachHeaderReportModel};
use crate::reporting::load_commands::{LoadCommandReport, LoadCommandReportModel};
use crate::reporting::rpaths::{RPathsReport, RPathsReportModel};
use crate::reporting::segments::{SegmentReport, SegmentReportModel};
use crate::reporting::symtab::{StringReport, StringReportModel, SymbolReport, SymbolReportModel};

verus! {

/// The report of one image. A part that was not asked for is left out.
#[derive(Debug)]
pub struct ArchitectureReport {
    pub cpu_type: String,
    pub cpu_subtype: String,
    pub header: Option<MachHeaderReport>,
    pub load_commands: Option<Vec<LoadCommandReport>>,
    pub segments: Option<Vec<SegmentReport>>,
    pub dylibs: Option<Vec<DylibReport>>,
    pub rpaths: Option<Vec<RPathsReport>>,
    /// The symbols in the order in which they are shown.
    pub symbols: Option<Vec<SymbolReport>>,
    pub strings: Option<Vec<StringReport>>,
}

/// What the report of an image holds.
pub struct ArchitectureReportModel {
    pub cpu_type: Seq<char>,
    pub cpu_subtype: Seq<char>,
    pub header: Option<MachHeaderReportModel>,
    pub load_commands: Option<Seq<LoadCommandReportModel>>,
    pub segments: Option<Seq<SegmentReportModel>>,
    pub dylibs: Option<Seq<DylibReportModel>>,
    pub rpaths: Option<Seq<RPathsReportModel>>,
    pub symbols: Option<Seq<SymbolReportModel>>,
    pub strings: Option<Seq<StringReportModel>>,
}

impl View for ArchitectureReport {
    type V = ArchitectureReportModel;

    open spec fn view(&self) -> ArchitectureReportModel {
        ArchitectureReportModel {
            cpu_type: self.cpu_type@,
            cpu_subtype: self.cpu_subtype@,
            header: match self.header {
                Some(report) => Some(report@),
                None => None,
            },
            load_commands: match self.load_commands {
                Some(list) => Some(views(list@)),
                None => None,
            },
            segments: match self.segments {
                Some(list) => Some(views(list@)),
                None => None,
            },
            dylibs: match self.dylibs {
                Some(list) => Some(views(list@)),
                None => None,
            },
            rpaths: match self.rpaths {
                Some(list) => Some(views(list@)),
                None => None,
            },
            symbols: match self.symbols {
                Some(list) => Some(views(list@)),
                None => None,
            },
            strings: match self.strings {
                Some(list) => Some(views(list@)),
                None => None,
            },
        }
    }
}

/// The report of a file: one report for each image that was analysed.
#[derive(Debug)]
pub struct MachOReport {
    pub is_fat: bool,
    pub architectures: Vec<ArchitectureReport>,
}

/// What the report of a file holds.
pub struct MachOReportModel {
    pub is_fat: bool,
    pub architectures: Seq<ArchitectureReportModel>,
}

impl View for MachOReport {
    type V = MachOReportModel;

    open spec fn view(&self) -> MachOReportModel {
        MachOReportModel {
            is_fat: self.is_fat,
            architectures: views(self.architectures@),
        }
    }
}

/// Which parts of the report of an image are wanted.
#[derive(Debug, Clone, Copy)]
pub struct ReportOptions {
    pub include_header: bool,
    pub include_segments: bool,
    pub include_dylibs: bool,
    pub include_rpaths: bool,
    pub include_loadcmds: bool,
    pub include_symbols: bool,
    pub include_strings: bool,
}

/// Puts the reports of the images of a file together.
pub fn build_macho_report(is_fat: bool, architectures: Vec<ArchitectureReport>) -> (report: MachOReport)
    ensures
        report.is_fat == is_fat,
        report.architectures == architectures,
{
    MachOReport { is_fat, architectures }
}

/// Reports each item of the list, in order.
pub fn report_load_commands(items: &[LoadCommand], json: bool) -> (reports: Vec<LoadCommandReport>)
    ensures
        views(reports@) == Seq::new(items@.len(), |i: int| items@[i].spec_report()),
{
    let mut reports: Vec<LoadCommandReport> = Vec::new();
    let mut i: usize = 0;
    while i < items.len()
        invariant
            i <= items@.len(),
            reports@.len() == i,
            forall|k: int| 0 <= k < i ==> (#[trigger] reports@[k])@ == ({
                let i = k;
                items@[i].spec_report()
            }),
        decreases items@.len() - i,
    {
        reports.push(items[i].build_report(json));
        i += 1;
    }
    reports
}

/// Reports each item of the list, in order.
pub fn report_segments(items: &[ParsedSegment], json: bool) -> (reports: Vec<SegmentReport>)
    ensures
        views(reports@) == Seq::new(items@.len(), |i: int| spec_segment_report(items@[i]@)),
{
    let mut reports: Vec<SegmentReport> = Vec::new();
    let mut i: usize = 0;
    while i < items.len()
        invariant
            i <= items@.len(),
            reports@.len() == i,
            forall|k: int| 0 <= k < i ==> (#[trigger] reports@[k])@ == ({
                let i = k;
                spec_segment_report(items@[i]@)
            }),
        decreases items@.len() - i,
    {
        reports.push(items[i].build_report(json));
        i += 1;
    }
    reports
}

/// Reports each item of the list, in order.
pub fn report_dylibs(items: &[ParsedDylib], json: bool) -> (reports: Vec<DylibReport>)
    ensures
        views(reports@) == Seq::new(items@.len(), |i: int| spec_dylib_report(items@[i]@)),
{
    let mut reports: Vec<DylibReport> = Vec::new();
    let mut i: usize = 0;
    while i < items.len()
        invariant
            i <= items@.len(),
            reports@.len() == i,
            forall|k: int| 0 <= k < i ==> (#[trigger] reports@[k])@ == ({
                let i = k;
                spec_dylib_report(items@[i]@)
            }),
        decreases items@.len() - i,
    {
        reports.push(items[i].build_report(json));
        i += 1;
    }
    reports
}

/// Reports each item of the list, in order.
pub fn report_rpaths(items: &[ParsedRPath], json: bool) -> (reports: Vec<RPathsReport>)
    ensures
        views(reports@) == Seq::new(items@.len(), |i: int| spec_rpath_report(items@[i]@)),
{
    let mut reports: Vec<RPathsReport> = Vec::new();
    let mut i: usize = 0;
    while i < items.len()
        invariant
            i <= items@.len(),
            reports@.len() == i,
            forall|k: int| 0 <= k < i ==> (#[trigger] reports@[k])@ == ({
                let i = k;
                spec_rpath_report(items@[i]@)
            }),
        decreases items@.len() - i,
    {
        reports.push(items[i].build_report(json));
        i += 1;
    }
    reports
}

/// Reports each item of the list, in order.
pub fn report_strings(items: &[ParsedString], json: bool) -> (reports: Vec<StringReport>)
    ensures
        views(reports@) == Seq::new(items@.len(), |i: int| spec_string_report(items@[i]@)),
{
    let mut reports: Vec<StringReport> = Vec::new();
    let mut i: usize = 0;
    while i < items.len()
        invariant
            i <= items@.len(),
            reports@.len() == i,
            forall|k: int| 0 <= k < i ==> (#[trigger] reports@[k])@ == ({
                let i = k;
                spec_string_report(items@[i]@)
            }),
        decreases items@.len() - i,
    {
        reports.push(items[i].build_report(json));
        i += 1;
    }
    reports
}

/// Reports each item of the list, in order.
pub fn report_symbols(items: &[ParsedSymbol], json: bool) -> (reports: Vec<SymbolReport>)
    ensures
        views(reports@) == Seq::new(items@.len(), |i: int| spec_symbol_report(items@[i]@)),
{
    let mut reports: Vec<SymbolReport> = Vec::new();
    let mut i: usize = 0;
    while i < items.len()
        invariant
            i <= items@.len(),
            reports@.len() == i,
            forall|k: int| 0 <= k < i ==> (#[trigger] reports@[k])@ == ({
                let i = k;
                spec_symbol_report(items@[i]@)
            }),
        decreases items@.len() - i,
    {
        reports.push(items[i].build_report(json));
        i += 1;
    }
    reports
}

/// A part of a report: there where it is asked for, and left out
/// otherwise.
pub open spec fn included<T>(asked_for: bool, part: T) -> Option<T> {
    if asked_for {
        Some(part)
    } else {
        None
    }
}

/// Whether `reports` are the reports of `symbols` in the order in which
/// symbols are shown.
pub open spec fn reports_symbols_in_order(reports: Seq<SymbolReportModel>, symbols: Seq<ParsedSymbol>) -> bool {
    exists|sorted: Seq<ParsedSymbol>|
        #![trigger is_stable_sort_of(sorted, symbols)]
        is_stable_sort_of(sorted, symbols) && reports == Seq::new(
            sorted.len(),
            |i: int| spec_symbol_report(sorted[i]@),
        )
}

/// Reports the symbols in the order in which they are shown: a copy of
/// the list is sorted, and each symbol of it is reported.
pub fn report_sorted_symbols(symbols: &[ParsedSymbol], json: bool) -> (reports: Vec<SymbolReport>)
    ensures
        reports_symbols_in_order(views(reports@), symbols@),
{
    let mut sorted: Vec<ParsedSymbol> = Vec::new();
    let mut i: usize = 0;
    while i < symbols.len()
        invariant
            i <= symbols@.len(),
            sorted@ == symbols@.take(i as int),
        decreases symbols@.len() - i,
    {
        sorted.push(symbols[i].duplicate());
        i += 1;
    }
    assert(symbols@.take(symbols@.len() as int) =~= symbols@);
    sort_symbols(&mut sorted);
    report_symbols(sorted.as_slice(), json)
}

/// Builds the report of one image from its decoded parts. The CPU is
/// always named; each other part is reported where the options ask for it.
/// The symbols are reported in the order in which they are shown.
pub fn build_architecture_report(
    cputype: i32,
    cpusubtype: i32,
    header: &MachOHeader,
    load_commands: &[LoadCommand],
    segments: &[ParsedSegment],
    dylibs: &[ParsedDylib],
    rpaths: &[ParsedRPath],
    symbols: &[ParsedSymbol],
    strings: &[ParsedString],
    json: bool,
    opts: &ReportOptions,
) -> (report: ArchitectureReport)
    ensures
        report@.cpu_type == spec_cpu_type_name(cputype),
        report@.cpu_subtype == spec_cpu_subtype_name(cputype, cpusubtype),
        report@.header == included(
            opts.include_header,
            header.spec_report(),
        ),
        report@.load_commands == included(
            opts.include_loadcmds,
            Seq::new(load_commands@.len(), |i: int| load_commands@[i].spec_report()),
        ),
        report@.segments == included(
            opts.include_segments,
            Seq::new(segments@.len(), |i: int| spec_segment_report(segments@[i]@)),
        ),
        report@.dylibs == included(
            opts.include_dylibs,
            Seq::new(dylibs@.len(), |i: int| spec_dylib_report(dylibs@[i]@)),
        ),
        report@.rpaths == included(
            opts.include_rpaths,
            Seq::new(rpaths@.len(), |i: int| spec_rpath_report(rpaths@[i]@)),
        ),
        report@.strings == included(
            opts.include_strings,
            Seq::new(strings@.len(), |i: int| spec_string_report(strings@[i]@)),
        ),
        report@.symbols is Some <==> opts.include_symbols,
        opts.include_symbols ==> reports_symbols_in_order(report@.symbols->Some_0, symbols@),
{
    ArchitectureReport {
        cpu_type: cpu_type_name(cputype).to_owned(),
        cpu_subtype: cpu_subtype_name(cputype, cpusubtype).to_owned(),
        header: if opts.include_header {
            Some(header.build_report(json))
        } else {
            None
        },
        load_commands: if opts.include_loadcmds {
            Some(report_load_commands(load_commands, json))
        } else {
            None
        },
        segments: if opts.include_segments {
            Some(report_segments(segments, json))
        } else {
            None
        },
        dylibs: if opts.include_dylibs {
            Some(report_dylibs(dylibs, json))
        } else {
            None
        },
        rpaths: if opts.include_rpaths {
            Some(report_rpaths(rpaths, json))
        } else {
            None
        },
        symbols: if opts.include_symbols {
            Some(report_sorted_symbols(symbols, json))
        } else {
            None
        },
        strings: if opts.include_strings {
            Some(report_strings(strings, json))
        } else {
            None
        },
    }
}

} // verus!
