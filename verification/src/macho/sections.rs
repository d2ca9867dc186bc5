//! Section records, and the role that each section plays in its image.

use vstd::prelude::*;
use crate::macho::constants;
use crate::macho::error::{result_is, DecodeError, ErrorKind, Stage};
use crate::macho::utils::{
    byte_array_to_string, name_at, read_name, read_u32, read_u64, spec_name_text, u32_at, u64_at,
};
use crate::reporting::sections::{SectionReport, SectionReportModel};

verus! {

/// The role of a section.
#[derive(Debug, Clone, Copy, PartialEq, Eq, Structural)]
pub enum SectionKind {
    /// Machine code.
    Code,
    /// Stubs that jump through the indirect symbol table.
    SymbolStubs,
    /// Pointers bound at first use.
    LazySymbolPointers,
    /// Pointers bound at load time.
    NonLazySymbolPointers,
    GlobalOffsetTable,
    /// NUL-terminated string literals.
    CString,
    ConstData,
    Data,
    /// Zero-filled memory with no bytes in the file.
    Bss,
    ObjCClass,
    ObjCMetaClass,
    ObjCSelectorRefs,
    ObjCMethodNames,
    ObjCMetadata,
    Exception,
    Unwind,
    Init,
    Debug,
    LinkEdit,
    /// A role that has no kind of its own. The classifier gives it to no
    /// section; it is there for whoever sorts sections by other means.
    Other,
    /// Neither the type code nor the names tell the role.
    Unknown,
}

impl SectionKind {
    pub open spec fn spec_uses_indirect_symbols(&self) -> bool {
        *self == SectionKind::SymbolStubs || *self == SectionKind::LazySymbolPointers || *self
            == SectionKind::NonLazySymbolPointers || *self == SectionKind::GlobalOffsetTable
    }

    /// Whether the entries of such a section are slots of the indirect
    /// symbol table.
    #[verifier::when_used_as_spec(spec_uses_indirect_symbols)]
    pub fn uses_indirect_symbols(&self) -> (b: bool)
        ensures
            b == self.spec_uses_indirect_symbols(),
    {
        matches!(
            self,
            SectionKind::SymbolStubs | SectionKind::LazySymbolPointers
                | SectionKind::NonLazySymbolPointers | SectionKind::GlobalOffsetTable
        )
    }
}

/// The section record of a 32-bit image as it stands in the file, 68 bytes.
#[derive(Debug, Clone, Copy)]
pub struct Section {
    pub sectname: [u8; 16],
    pub segname: [u8; 16],
    pub addr: u32,
    pub size: u32,
    pub offset: u32,
    pub align: u32,
    pub reloff: u32,
    pub nreloc: u32,
    pub flags: u32,
    pub reserved1: u32,
    pub reserved2: u32,
}

/// The section record of a 64-bit image as it stands in the file, 80 bytes.
#[derive(Debug, Clone, Copy)]
pub struct Section64 {
    pub sectname: [u8; 16],
    pub segname: [u8; 16],
    pub addr: u64,
    pub size: u64,
    pub offset: u32,
    pub align: u32,
    pub reloff: u32,
    pub nreloc: u32,
    pub flags: u32,
    pub reserved1: u32,
    pub reserved2: u32,
    pub reserved3: u32,
}

/// A decoded section. Addresses and sizes of a 32-bit record are widened to
/// 64 bits; `reserved3` exists in 64-bit records only.
#[derive(Debug, Clone, Copy)]
pub struct ParsedSection {
    pub sectname: [u8; 16],
    pub segname: [u8; 16],
    /// Where the section's bytes lie in the file.
    pub offset: u32,
    pub addr: u64,
    pub size: u64,
    pub flags: u32,
    pub kind: SectionKind,
    /// For a section of indirect symbols: its first slot in the indirect
    /// symbol table.
    pub reserved1: u32,
    /// For a section of stubs: the size of one stub.
    pub reserved2: u32,
    pub reserved3: Option<u32>,
}

/// What a decoded section holds, with its names as byte strings.
pub struct SectionModel {
    pub sectname: Seq<u8>,
    pub segname: Seq<u8>,
    pub offset: u32,
    pub addr: u64,
    pub size: u64,
    pub flags: u32,
    pub kind: SectionKind,
    pub reserved1: u32,
    pub reserved2: u32,
    pub reserved3: Option<u32>,
}

impl View for ParsedSection {
    type V = SectionModel;

    open spec fn view(&self) -> SectionModel {
        SectionModel {
            sectname: self.sectname@,
            segname: self.segname@,
            offset: self.offset,
            addr: self.addr,
            size: self.size,
            flags: self.flags,
            kind: self.kind,
            reserved1: self.reserved1,
            reserved2: self.reserved2,
            reserved3: self.reserved3,
        }
    }
}

/// Whether two names are the same sixteen bytes. Names are compared as they
/// stand, padding included.
pub fn name_eq(a: &[u8; 16], b: &[u8; 16]) -> (same: bool)
    ensures
        same == (a@ == b@),
{
    let mut i: usize = 0;
    while i < 16
        invariant
            i <= 16,
            forall|j: int| 0 <= j < i ==> a@[j] == b@[j],
        decreases 16 - i,
    {
        if a[i] != b[i] {
            return false;
        }
        i += 1;
    }
    assert(a@ =~= b@);
    true
}

/// The kind that the type code of a section decides by itself, if it is one
/// of those that do.
pub open spec fn spec_kind_of_type(stype: u32) -> Option<SectionKind> {
    if stype == constants::S_CSTRING_LITERALS {
        Some(SectionKind::CString)
    } else if stype == constants::S_ZEROFILL || stype == constants::S_GB_ZEROFILL {
        Some(SectionKind::Bss)
    } else if stype == constants::S_SYMBOL_STUBS {
        Some(SectionKind::SymbolStubs)
    } else if stype == constants::S_LAZY_SYMBOL_POINTERS || stype
        == constants::S_LAZY_DYLUB_SYMBOL_POINTERS {
        Some(SectionKind::LazySymbolPointers)
    } else if stype == constants::S_NON_LAZY_SYMBOL_POINTERS {
        Some(SectionKind::NonLazySymbolPointers)
    } else if stype == constants::S_MOD_INIT_FUNC_POINTERS || stype
        == constants::S_MOD_TERM_FUNC_POINTERS {
        Some(SectionKind::Init)
    } else {
        None
    }
}

/// The kind of a regular section, by the table of well-known segment and
/// section names. A section of `__LINKEDIT` that the table does not name
/// is `LinkEdit`; any other one that it does not name is `Unknown`.
pub open spec fn spec_kind_of_names(seg: Seq<u8>, sect: Seq<u8>) -> SectionKind {
    if seg == constants::SEG_TEXT@ {
        if sect == constants::SECT_TEXT@ {
            SectionKind::Code
        } else if sect == constants::SECT_CONST@ {
            SectionKind::ConstData
        } else if sect == constants::SECT_CSTRING@ {
            SectionKind::CString
        } else if sect == constants::SECT_GCC_EXCEPT_TAB@ || sect == constants::SECT_EH_FRAME@ {
            SectionKind::Exception
        } else if sect == constants::SECT_UNWIND_INFO@ {
            SectionKind::Unwind
        } else if sect == constants::SECT_INIT_OFFSETS@ {
            SectionKind::Init
        } else if sect == constants::SECT_OBJC_METHNAME@ {
            SectionKind::ObjCMethodNames
        } else if sect == constants::SECT_OBJC_STUBS@ {
            SectionKind::SymbolStubs
        } else {
            SectionKind::Unknown
        }
    } else if seg == constants::SEG_DATA@ {
        if sect == constants::SECT_DATA@ {
            SectionKind::Data
        } else if sect == constants::SECT_BSS@ || sect == constants::SECT_COMMON@ {
            SectionKind::Bss
        } else if sect == constants::SECT_OBJC_SELREFS@ {
            SectionKind::ObjCSelectorRefs
        } else if sect == constants::SECT_OBJC_CLASSREFS@ {
            SectionKind::ObjCClass
        } else {
            SectionKind::Unknown
        }
    } else if seg == constants::SEG_DATA_CONST@ {
        if sect == constants::SECT_CONST@ {
            SectionKind::ConstData
        } else if sect == constants::SECT_GOT@ {
            SectionKind::GlobalOffsetTable
        } else if sect == constants::SECT_CFSTRING@ || sect == constants::SECT_OBJC_IMAGEINFO@
            || sect == constants::SECT_OBJC_PROTLIST@ {
            SectionKind::ObjCMetadata
        } else if sect == constants::SECT_OBJC_CLASSLIST@ {
            SectionKind::ObjCClass
        } else if sect == constants::SECT_OBJC_SELREFS@ {
            SectionKind::ObjCSelectorRefs
        } else {
            SectionKind::Unknown
        }
    } else if seg == constants::SEG_AUTH_CONST@ {
        if sect == constants::SECT_AUTH_GOT@ {
            SectionKind::GlobalOffsetTable
        } else if sect == constants::SECT_AUTH_PTR@ {
            SectionKind::NonLazySymbolPointers
        } else if sect == constants::SECT_CONST@ {
            SectionKind::ConstData
        } else {
            SectionKind::Unknown
        }
    } else if seg == constants::SEG_AUTH@ {
        if sect == constants::SECT_DATA@ {
            SectionKind::Data
        } else if sect == constants::SECT_OBJC_DATA@ {
            SectionKind::ObjCClass
        } else {
            SectionKind::Unknown
        }
    } else if seg == constants::SEG_LINKEDIT@ {
        SectionKind::LinkEdit
    } else {
        SectionKind::Unknown
    }
}

/// The kind of a section. The type code in the low byte of `sect_type`
/// decides where it is one of the codes with a kind of their own; a regular
/// section goes by its names; any other one is `LinkEdit` inside
/// `__LINKEDIT` and `Unknown` elsewhere.
pub open spec fn spec_classify_section(sect_name: Seq<u8>, sect_type: u32, seg_name: Seq<u8>) -> SectionKind {
    let stype = sect_type & constants::SECTION_TYPE;
    match spec_kind_of_type(stype) {
        Some(kind) => kind,
        None => if stype == constants::S_REGULAR {
            spec_kind_of_names(seg_name, sect_name)
        } else if seg_name == constants::SEG_LINKEDIT@ {
            SectionKind::LinkEdit
        } else {
            SectionKind::Unknown
        },
    }
}

fn kind_of_names(seg: &[u8; 16], sect: &[u8; 16]) -> (kind: SectionKind)
    ensures
        kind == spec_kind_of_names(seg@, sect@),
{
    if name_eq(seg, &constants::SEG_TEXT) {
        if name_eq(sect, &constants::SECT_TEXT) {
            SectionKind::Code
        } else if name_eq(sect, &constants::SECT_CONST) {
            SectionKind::ConstData
        } else if name_eq(sect, &constants::SECT_CSTRING) {
            SectionKind::CString
        } else if name_eq(sect, &constants::SECT_GCC_EXCEPT_TAB) || name_eq(
            sect,
            &constants::SECT_EH_FRAME,
        ) {
            SectionKind::Exception
        } else if name_eq(sect, &constants::SECT_UNWIND_INFO) {
            SectionKind::Unwind
        } else if name_eq(sect, &constants::SECT_INIT_OFFSETS) {
            SectionKind::Init
        } else if name_eq(sect, &constants::SECT_OBJC_METHNAME) {
            SectionKind::ObjCMethodNames
        } else if name_eq(sect, &constants::SECT_OBJC_STUBS) {
            SectionKind::SymbolStubs
        } else {
            SectionKind::Unknown
        }
    } else if name_eq(seg, &constants::SEG_DATA) {
        if name_eq(sect, &constants::SECT_DATA) {
            SectionKind::Data
        } else if name_eq(sect, &constants::SECT_BSS) || name_eq(sect, &constants::SECT_COMMON) {
            SectionKind::Bss
        } else if name_eq(sect, &constants::SECT_OBJC_SELREFS) {
            SectionKind::ObjCSelectorRefs
        } else if name_eq(sect, &constants::SECT_OBJC_CLASSREFS) {
            SectionKind::ObjCClass
        } else {
            SectionKind::Unknown
        }
    } else if name_eq(seg, &constants::SEG_DATA_CONST) {
        if name_eq(sect, &constants::SECT_CONST) {
            SectionKind::ConstData
        } else if name_eq(sect, &constants::SECT_GOT) {
            SectionKind::GlobalOffsetTable
        } else if name_eq(sect, &constants::SECT_CFSTRING) || name_eq(
            sect,
            &constants::SECT_OBJC_IMAGEINFO,
        ) || name_eq(sect, &constants::SECT_OBJC_PROTLIST) {
            SectionKind::ObjCMetadata
        } else if name_eq(sect, &constants::SECT_OBJC_CLASSLIST) {
            SectionKind::ObjCClass
        } else if name_eq(sect, &constants::SECT_OBJC_SELREFS) {
            SectionKind::ObjCSelectorRefs
        } else {
            SectionKind::Unknown
        }
    } else if name_eq(seg, &constants::SEG_AUTH_CONST) {
        if name_eq(sect, &constants::SECT_AUTH_GOT) {
            SectionKind::GlobalOffsetTable
        } else if name_eq(sect, &constants::SECT_AUTH_PTR) {
            SectionKind::NonLazySymbolPointers
        } else if name_eq(sect, &constants::SECT_CONST) {
            SectionKind::ConstData
        } else {
            SectionKind::Unknown
        }
    } else if name_eq(seg, &constants::SEG_AUTH) {
        if name_eq(sect, &constants::SECT_DATA) {
            SectionKind::Data
        } else if name_eq(sect, &constants::SECT_OBJC_DATA) {
            SectionKind::ObjCClass
        } else {
            SectionKind::Unknown
        }
    } else if name_eq(seg, &constants::SEG_LINKEDIT) {
        SectionKind::LinkEdit
    } else {
        SectionKind::Unknown
    }
}

/// Classifies a section by its type code first and by its names second.
pub fn classify_section(sect_name: [u8; 16], sect_type: u32, seg_name: [u8; 16]) -> (kind: SectionKind)
    ensures
        kind == spec_classify_section(sect_name@, sect_type, seg_name@),
{
    let stype = sect_type & constants::SECTION_TYPE;
    if stype == constants::S_CSTRING_LITERALS {
        SectionKind::CString
    } else if stype == constants::S_ZEROFILL || stype == constants::S_GB_ZEROFILL {
        SectionKind::Bss
    } else if stype == constants::S_SYMBOL_STUBS {
        SectionKind::SymbolStubs
    } else if stype == constants::S_LAZY_SYMBOL_POINTERS || stype
        == constants::S_LAZY_DYLUB_SYMBOL_POINTERS {
        SectionKind::LazySymbolPointers
    } else if stype == constants::S_NON_LAZY_SYMBOL_POINTERS {
        SectionKind::NonLazySymbolPointers
    } else if stype == constants::S_MOD_INIT_FUNC_POINTERS || stype
        == constants::S_MOD_TERM_FUNC_POINTERS {
        SectionKind::Init
    } else if stype == constants::S_REGULAR {
        kind_of_names(&seg_name, &sect_name)
    } else if name_eq(&seg_name, &constants::SEG_LINKEDIT) {
        SectionKind::LinkEdit
    } else {
        SectionKind::Unknown
    }
}

/// A section whose type is that of C string literals is a `CString`
/// section, whatever its names and its attributes are.
pub proof fn lemma_cstring_type_decides(sect_name: Seq<u8>, seg_name: Seq<u8>, flags: u32)
    requires
        flags & constants::SECTION_TYPE == constants::S_CSTRING_LITERALS,
    ensures
        spec_classify_section(sect_name, flags, seg_name) == SectionKind::CString,
{
}

/// A regular section outside `__LINKEDIT` whose segment is none of those
/// that the table knows is `Unknown`, and a regular section of
/// `__LINKEDIT` is `LinkEdit` under any name.
pub proof fn lemma_unmatched_regular_section(sect_name: Seq<u8>, seg_name: Seq<u8>, flags: u32)
    requires
        flags & constants::SECTION_TYPE == constants::S_REGULAR,
    ensures
        seg_name == constants::SEG_LINKEDIT@ ==> spec_classify_section(sect_name, flags, seg_name)
            == SectionKind::LinkEdit,
        seg_name != constants::SEG_TEXT@ && seg_name != constants::SEG_DATA@ && seg_name
            != constants::SEG_DATA_CONST@ && seg_name != constants::SEG_AUTH_CONST@ && seg_name
            != constants::SEG_AUTH@ && seg_name != constants::SEG_LINKEDIT@ ==> spec_classify_section(
            sect_name,
            flags,
            seg_name,
        ) == SectionKind::Unknown,
{
}

/// No section is classified as `Other`.
pub proof fn lemma_never_other(sect_name: Seq<u8>, seg_name: Seq<u8>, flags: u32)
    ensures
        spec_classify_section(sect_name, flags, seg_name) != SectionKind::Other,
{
}

/// Where the type code of a section is one of those with a kind of their
/// own, the names of the section have no say.
pub proof fn lemma_type_code_decides(
    sect_type: u32,
    name_a: Seq<u8>,
    seg_a: Seq<u8>,
    name_b: Seq<u8>,
    seg_b: Seq<u8>,
)
    requires
        spec_kind_of_type(sect_type & constants::SECTION_TYPE) is Some,
    ensures
        spec_classify_section(name_a, sect_type, seg_a) == spec_classify_section(name_b, sect_type, seg_b),
        spec_classify_section(name_a, sect_type, seg_a) == spec_kind_of_type(
            sect_type & constants::SECTION_TYPE,
        )->Some_0,
{
}

/// The size of a section record in the file.
pub open spec fn section_size(is_64: bool) -> int {
    if is_64 {
        80
    } else {
        68
    }
}

/// The section whose record starts at `off`.
pub open spec fn spec_section_at(data: Seq<u8>, off: int, is_be: bool, is_64: bool) -> SectionModel {
    let sectname = name_at(data, off);
    let segname = name_at(data, off + 16);
    if is_64 {
        let flags = u32_at(data, off + 64, is_be);
        SectionModel {
            sectname,
            segname,
            offset: u32_at(data, off + 48, is_be),
            addr: u64_at(data, off + 32, is_be),
            size: u64_at(data, off + 40, is_be),
            flags,
            kind: spec_classify_section(sectname, flags & constants::SECTION_TYPE, segname),
            reserved1: u32_at(data, off + 68, is_be),
            reserved2: u32_at(data, off + 72, is_be),
            reserved3: Some(u32_at(data, off + 76, is_be)),
        }
    } else {
        let flags = u32_at(data, off + 56, is_be);
        SectionModel {
            sectname,
            segname,
            offset: u32_at(data, off + 40, is_be),
            addr: u32_at(data, off + 32, is_be) as u64,
            size: u32_at(data, off + 36, is_be) as u64,
            flags,
            kind: spec_classify_section(sectname, flags & constants::SECTION_TYPE, segname),
            reserved1: u32_at(data, off + 60, is_be),
            reserved2: u32_at(data, off + 64, is_be),
            reserved3: None,
        }
    }
}

pub open spec fn section_error(index: int, off: int) -> DecodeError {
    DecodeError::at(ErrorKind::TruncatedRecord, Stage::Section, index, off)
}

/// What the two section readers return: the section at `off`, or an error
/// where its record does not lie inside the file.
pub open spec fn spec_read_section(data: Seq<u8>, off: int, is_be: bool, is_64: bool) -> Result<
    SectionModel,
    DecodeError,
> {
    if off + section_size(is_64) > data.len() {
        Err(section_error(0, off))
    } else {
        Ok(spec_section_at(data, off, is_be, is_64))
    }
}

/// Reads the 80-byte section record of a 64-bit image at `sect_offset`.
pub fn read_section64_from_bytes(data: &[u8], is_be: bool, sect_offset: usize) -> (r: Result<
    ParsedSection,
    DecodeError,
>)
    ensures
        result_is(r, spec_read_section(data@, sect_offset as int, is_be, true)),
{
    if sect_offset > data.len() || data.len() - sect_offset < constants::SECTION64_SIZE {
        return Err(DecodeError::new(ErrorKind::TruncatedRecord, Stage::Section, 0, sect_offset as u64));
    }
    let sect_name = read_name(data, sect_offset);
    let seg_name = read_name(data, sect_offset + 16);
    let sect_addr = read_u64(data, sect_offset + 32, is_be);
    let sect_size = read_u64(data, sect_offset + 40, is_be);
    let sect_fileoff = read_u32(data, sect_offset + 48, is_be);
    let sect_flags = read_u32(data, sect_offset + 64, is_be);
    let reserved1 = read_u32(data, sect_offset + 68, is_be);
    let reserved2 = read_u32(data, sect_offset + 72, is_be);
    let reserved3 = read_u32(data, sect_offset + 76, is_be);
    let sect_kind = classify_section(sect_name, sect_flags & constants::SECTION_TYPE, seg_name);
    Ok(
        ParsedSection {
            sectname: sect_name,
            segname: seg_name,
            offset: sect_fileoff,
            addr: sect_addr,
            size: sect_size,
            flags: sect_flags,
            kind: sect_kind,
            reserved1,
            reserved2,
            reserved3: Some(reserved3),
        },
    )
}

/// Reads the 68-byte section record of a 32-bit image at `sect_offset`.
pub fn read_section32_from_bytes(data: &[u8], is_be: bool, sect_offset: usize) -> (r: Result<
    ParsedSection,
    DecodeError,
>)
    ensures
        result_is(r, spec_read_section(data@, sect_offset as int, is_be, false)),
{
    if sect_offset > data.len() || data.len() - sect_offset < constants::SECTION32_SIZE {
        return Err(DecodeError::new(ErrorKind::TruncatedRecord, Stage::Section, 0, sect_offset as u64));
    }
    let sect_name = read_name(data, sect_offset);
    let seg_name = read_name(data, sect_offset + 16);
    let sect_addr = read_u32(data, sect_offset + 32, is_be) as u64;
    let sect_size = read_u32(data, sect_offset + 36, is_be) as u64;
    let sect_fileoff = read_u32(data, sect_offset + 40, is_be);
    let sect_flags = read_u32(data, sect_offset + 56, is_be);
    let reserved1 = read_u32(data, sect_offset + 60, is_be);
    let reserved2 = read_u32(data, sect_offset + 64, is_be);
    let sect_kind = classify_section(sect_name, sect_flags & constants::SECTION_TYPE, seg_name);
    Ok(
        ParsedSection {
            sectname: sect_name,
            segname: seg_name,
            offset: sect_fileoff,
            addr: sect_addr,
            size: sect_size,
            flags: sect_flags,
            kind: sect_kind,
            reserved1,
            reserved2,
            reserved3: None,
        },
    )
}

impl SectionKind {
    /// The name of the kind.
    pub open spec fn spec_name(self) -> Seq<char> {
        match self {
            SectionKind::Code => "Code"@,
            SectionKind::SymbolStubs => "SymbolStubs"@,
            SectionKind::LazySymbolPointers => "LazySymbolPointers"@,
            SectionKind::NonLazySymbolPointers => "NonLazySymbolPointers"@,
            SectionKind::GlobalOffsetTable => "GlobalOffsetTable"@,
            SectionKind::CString => "CString"@,
            SectionKind::ConstData => "ConstData"@,
            SectionKind::Data => "Data"@,
            SectionKind::Bss => "Bss"@,
            SectionKind::ObjCClass => "ObjCClass"@,
            SectionKind::ObjCMetaClass => "ObjCMetaClass"@,
            SectionKind::ObjCSelectorRefs => "ObjCSelectorRefs"@,
            SectionKind::ObjCMethodNames => "ObjCMethodNames"@,
            SectionKind::ObjCMetadata => "ObjCMetadata"@,
            SectionKind::Exception => "Exception"@,
            SectionKind::Unwind => "Unwind"@,
            SectionKind::Init => "Init"@,
            SectionKind::Debug => "Debug"@,
            SectionKind::LinkEdit => "LinkEdit"@,
            SectionKind::Other => "Other"@,
            SectionKind::Unknown => "Unknown"@,
        }
    }

    /// The name of the kind, as it is written in reports.
    pub fn name(&self) -> (text: &'static str)
        ensures
            text@ == self.spec_name(),
    {
        match self {
            SectionKind::Code => "Code",
            SectionKind::SymbolStubs => "SymbolStubs",
            SectionKind::LazySymbolPointers => "LazySymbolPointers",
            SectionKind::NonLazySymbolPointers => "NonLazySymbolPointers",
            SectionKind::GlobalOffsetTable => "GlobalOffsetTable",
            SectionKind::CString => "CString",
            SectionKind::ConstData => "ConstData",
            SectionKind::Data => "Data",
            SectionKind::Bss => "Bss",
            SectionKind::ObjCClass => "ObjCClass",
            SectionKind::ObjCMetaClass => "ObjCMetaClass",
            SectionKind::ObjCSelectorRefs => "ObjCSelectorRefs",
            SectionKind::ObjCMethodNames => "ObjCMethodNames",
            SectionKind::ObjCMetadata => "ObjCMetadata",
            SectionKind::Exception => "Exception",
            SectionKind::Unwind => "Unwind",
            SectionKind::Init => "Init",
            SectionKind::Debug => "Debug",
            SectionKind::LinkEdit => "LinkEdit",
            SectionKind::Other => "Other",
            SectionKind::Unknown => "Unknown",
        }
    }
}

/// What the report of a section says.
pub open spec fn spec_section_report(section: SectionModel) -> SectionReportModel {
    SectionReportModel {
        name: spec_name_text(section.sectname),
        segment: spec_name_text(section.segname),
        kind: section.kind.spec_name(),
        addr: section.addr,
        size: section.size,
    }
}

impl ParsedSection {
    /// Reports the section with its names as text.
    pub fn build_report(&self) -> (report: SectionReport)
        ensures
            report@ == spec_section_report(self@),
    {
        SectionReport {
            name: byte_array_to_string(&self.sectname),
            segment: byte_array_to_string(&self.segname),
            kind: self.kind.name().to_owned(),
            addr: self.addr,
            size: self.size,
        }
    }
}

} // verus!
