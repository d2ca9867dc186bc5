//! The reports of symbols and strings.

use vstd::prelude::*;
use crate::macho::symtab::text_of;

verus! {

/// A symbol as it is reported.
#[derive(Debug, Clone)]
pub struct SymbolReport {
    pub name: String,
    pub value: u64,
    pub addr: u64,
    /// The address in hexadecimal.
    pub addr_hex: String,
    pub kind: String,
    pub section: Option<u8>,
    pub sectname: Option<String>,
    pub segname: Option<String>,
    pub external: bool,
    pub debug: bool,
}

/// What the report of a symbol holds.
pub struct SymbolReportModel {
    pub name: Seq<char>,
    pub value: u64,
    pub addr: u64,
    pub addr_hex: Seq<char>,
    pub kind: Seq<char>,
    pub section: Option<u8>,
    pub sectname: Option<Seq<char>>,
    pub segname: Option<Seq<char>>,
    pub external: bool,
    pub debug: bool,
}

impl View for SymbolReport {
    type V = SymbolReportModel;

    open spec fn view(&self) -> SymbolReportModel {
        SymbolReportModel {
            name: self.name@,
            value: self.value,
            addr: self.addr,
            addr_hex: self.addr_hex@,
            kind: self.kind@,
            section: self.section,
            sectname: text_of(self.sectname),
            segname: text_of(self.segname),
            external: self.external,
            debug: self.debug,
        }
    }
}

/// A string as it is reported.
#[derive(Debug, Clone)]
pub struct StringReport {
    pub value: String,
    pub segname: String,
    pub sectname: String,
}

/// What the report of a string holds.
pub struct StringReportModel {
    pub value: Seq<char>,
    pub segname: Seq<char>,
    pub sectname: Seq<char>,
}

impl View for StringReport {
    type V = StringReportModel;

    open spec fn view(&self) -> StringReportModel {
        StringReportModel {
            value: self.value@,
            segname: self.segname@,
            sectname: self.sectname@,
        }
    }
}

} // verus!
