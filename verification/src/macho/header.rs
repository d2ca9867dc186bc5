//! The Mach-O header of one thin image.

use vstd::prelude::*;
use crate::macho::constants;
use crate::macho::error::{DecodeError, ErrorKind, Stage};
use crate::macho::fat::{magic_is, FatArch};
use crate::macho::utils::{i32_at, read_i32, read_u32, u32_at};
use crate::reporting::header::{MachHeaderReport, MachHeaderReportModel};

verus! {

/// Where one thin image lies in the file. A thin file is one slice from
/// offset 0 with no size: the image runs to the end of the file.
#[derive(Debug, Clone, Copy, PartialEq, Eq, Structural)]
pub struct MachOSlice {
    pub offset: u64,
    pub size: Option<u64>,
}

impl FatArch {
    /// The slice that a table entry describes.
    pub open spec fn spec_slice(self) -> MachOSlice {
        match self {
            FatArch::Arch32(a) => MachOSlice { offset: a.offset as u64, size: Some(a.size as u64) },
            FatArch::Arch64(a) => MachOSlice { offset: a.offset, size: Some(a.size) },
        }
    }

    /// The slice that this table entry describes, widened to 64 bits.
    pub fn slice(&self) -> (s: MachOSlice)
        ensures
            s == self.spec_slice(),
    {
        match self {
            FatArch::Arch32(a) => MachOSlice { offset: a.offset as u64, size: Some(a.size as u64) },
            FatArch::Arch64(a) => MachOSlice { offset: a.offset, size: Some(a.size) },
        }
    }
}

/// One flag of the header: its bit and its name.
#[derive(Debug, Clone, Copy)]
pub struct MachOFlag {
    pub mask: u32,
    pub name: &'static str,
}

/// The number of header flags that have a name.
pub const MACHO_FLAG_COUNT: usize = 30;

/// The bit of the `i`-th named flag, in the order of the table.
pub open spec fn spec_flag_mask(i: int) -> u32 {
    if i == 0 {
        constants::MH_NOUNDEFS
    } else if i == 1 {
        constants::MH_INCRLINK
    } else if i == 2 {
        constants::MH_DYLDLINK
    } else if i == 3 {
        constants::MH_BINDATLOAD
    } else if i == 4 {
        constants::MH_PREBOUND
    } else if i == 5 {
        constants::MH_SPLIT_SEGS
    } else if i == 6 {
        constants::MH_LAZY_INIT
    } else if i == 7 {
        constants::MH_TWOLEVEL
    } else if i == 8 {
        constants::MH_FORCE_FLAT
    } else if i == 9 {
        constants::MH_NOMULTIDEFS
    } else if i == 10 {
        constants::MH_NOFIXPREBINDING
    } else if i == 11 {
        constants::MH_PREBINDABLE
    } else if i == 12 {
        constants::MH_ALLMODSBOUND
    } else if i == 13 {
        constants::MH_SUBSECTIONS_VIA_SYMBOLS
    } else if i == 14 {
        constants::MH_CANONICAL
    } else if i == 15 {
        constants::MH_WEAK_DEFINES
    } else if i == 16 {
        constants::MH_BINDS_TO_WEAK
    } else if i == 17 {
        constants::MH_ALLOW_STACK_EXECUTION
    } else if i == 18 {
        constants::MH_ROOT_SAFE
    } else if i == 19 {
        constants::MH_SETUID_SAFE
    } else if i == 20 {
        constants::MH_NO_REEXPORTED_DYLIBS
    } else if i == 21 {
        constants::MH_PIE
    } else if i == 22 {
        constants::MH_DEAD_STRIPPABLE_DYLIB
    } else if i == 23 {
        constants::MH_HAS_TLV_DESCRIPTORS
    } else if i == 24 {
        constants::MH_NO_HEAP_EXECUTION
    } else if i == 25 {
        constants::MH_APP_EXTENSION_SAFE
    } else if i == 26 {
        constants::MH_NLIST_OUTOFSYNC_WITH_DYLDINFO
    } else if i == 27 {
        constants::MH_SIM_SUPPORT
    } else if i == 28 {
        constants::MH_IMPLICIT_PAGEZERO
    } else {
        constants::MH_DYLIB_IN_CACHE
    }
}

/// The name of the `i`-th named flag.
pub open spec fn spec_flag_name(i: int) -> Seq<char> {
    if i == 0 {
        "NOUNDEFS"@
    } else if i == 1 {
        "INCRLINK"@
    } else if i == 2 {
        "DYLDLINK"@
    } else if i == 3 {
        "BINDATLOAD"@
    } else if i == 4 {
        "PREBOUND"@
    } else if i == 5 {
        "SPLIT_SEGS"@
    } else if i == 6 {
        "LAZY_INIT"@
    } else if i == 7 {
        "TWOLEVEL"@
    } else if i == 8 {
        "FORCE_FLAT"@
    } else if i == 9 {
        "NOMULTIDEFS"@
    } else if i == 10 {
        "NOFIXPREBINDING"@
    } else if i == 11 {
        "PREBINDABLE"@
    } else if i == 12 {
        "ALLMODSBOUND"@
    } else if i == 13 {
        "SUBSECTIONS_VIA_SYMBOLS"@
    } else if i == 14 {
        "CANONICAL"@
    } else if i == 15 {
        "WEAK_DEFINES"@
    } else if i == 16 {
        "BINDS_TO_WEAK"@
    } else if i == 17 {
        "ALLOW_STACK_EXECUTION"@
    } else if i == 18 {
        "ROOT_SAFE"@
    } else if i == 19 {
        "SETUID_SAFE"@
    } else if i == 20 {
        "NO_REEXPORTED_DYLIBS"@
    } else if i == 21 {
        "PIE"@
    } else if i == 22 {
        "DEAD_STRIPPABLE_DYLIB"@
    } else if i == 23 {
        "HAS_TLV_DESCRIPTORS"@
    } else if i == 24 {
        "NO_HEAP_EXECUTION"@
    } else if i == 25 {
        "APP_EXTENSION_SAFE"@
    } else if i == 26 {
        "NLIST_OUTOFSYNC_WITH_DYLDINFO"@
    } else if i == 27 {
        "SIM_SUPPORT"@
    } else if i == 28 {
        "IMPLICIT_PAGEZERO"@
    } else {
        "DYLIB_IN_CACHE"@
    }
}

/// The `i`-th entry of the table of named header flags.
pub fn macho_flag(i: usize) -> (flag: MachOFlag)
    requires
        i < MACHO_FLAG_COUNT,
    ensures
        flag.mask == spec_flag_mask(i as int),
        flag.name@ == spec_flag_name(i as int),
{
    match i {
        0 => MachOFlag { mask: constants::MH_NOUNDEFS, name: "NOUNDEFS" },
        1 => MachOFlag { mask: constants::MH_INCRLINK, name: "INCRLINK" },
        2 => MachOFlag { mask: constants::MH_DYLDLINK, name: "DYLDLINK" },
        3 => MachOFlag { mask: constants::MH_BINDATLOAD, name: "BINDATLOAD" },
        4 => MachOFlag { mask: constants::MH_PREBOUND, name: "PREBOUND" },
        5 => MachOFlag { mask: constants::MH_SPLIT_SEGS, name: "SPLIT_SEGS" },
        6 => MachOFlag { mask: constants::MH_LAZY_INIT, name: "LAZY_INIT" },
        7 => MachOFlag { mask: constants::MH_TWOLEVEL, name: "TWOLEVEL" },
        8 => MachOFlag { mask: constants::MH_FORCE_FLAT, name: "FORCE_FLAT" },
        9 => MachOFlag { mask: constants::MH_NOMULTIDEFS, name: "NOMULTIDEFS" },
        10 => MachOFlag { mask: constants::MH_NOFIXPREBINDING, name: "NOFIXPREBINDING" },
        11 => MachOFlag { mask: constants::MH_PREBINDABLE, name: "PREBINDABLE" },
        12 => MachOFlag { mask: constants::MH_ALLMODSBOUND, name: "ALLMODSBOUND" },
        13 => MachOFlag { mask: constants::MH_SUBSECTIONS_VIA_SYMBOLS, name: "SUBSECTIONS_VIA_SYMBOLS" },
        14 => MachOFlag { mask: constants::MH_CANONICAL, name: "CANONICAL" },
        15 => MachOFlag { mask: constants::MH_WEAK_DEFINES, name: "WEAK_DEFINES" },
        16 => MachOFlag { mask: constants::MH_BINDS_TO_WEAK, name: "BINDS_TO_WEAK" },
        17 => MachOFlag { mask: constants::MH_ALLOW_STACK_EXECUTION, name: "ALLOW_STACK_EXECUTION" },
        18 => MachOFlag { mask: constants::MH_ROOT_SAFE, name: "ROOT_SAFE" },
        19 => MachOFlag { mask: constants::MH_SETUID_SAFE, name: "SETUID_SAFE" },
        20 => MachOFlag { mask: constants::MH_NO_REEXPORTED_DYLIBS, name: "NO_REEXPORTED_DYLIBS" },
        21 => MachOFlag { mask: constants::MH_PIE, name: "PIE" },
        22 => MachOFlag { mask: constants::MH_DEAD_STRIPPABLE_DYLIB, name: "DEAD_STRIPPABLE_DYLIB" },
        23 => MachOFlag { mask: constants::MH_HAS_TLV_DESCRIPTORS, name: "HAS_TLV_DESCRIPTORS" },
        24 => MachOFlag { mask: constants::MH_NO_HEAP_EXECUTION, name: "NO_HEAP_EXECUTION" },
        25 => MachOFlag { mask: constants::MH_APP_EXTENSION_SAFE, name: "APP_EXTENSION_SAFE" },
        26 => MachOFlag {
            mask: constants::MH_NLIST_OUTOFSYNC_WITH_DYLDINFO,
            name: "NLIST_OUTOFSYNC_WITH_DYLDINFO",
        },
        27 => MachOFlag { mask: constants::MH_SIM_SUPPORT, name: "SIM_SUPPORT" },
        28 => MachOFlag { mask: constants::MH_IMPLICIT_PAGEZERO, name: "IMPLICIT_PAGEZERO" },
        _ => MachOFlag { mask: constants::MH_DYLIB_IN_CACHE, name: "DYLIB_IN_CACHE" },
    }
}

/// The names of the flags among the first `upto` of the table whose bit is
/// set in `flags`, in table order.
pub open spec fn spec_flag_names(flags: u32, upto: int) -> Seq<Seq<char>>
    decreases upto,
{
    if upto <= 0 {
        Seq::empty()
    } else if flags & spec_flag_mask(upto - 1) != 0 {
        spec_flag_names(flags, upto - 1).push(spec_flag_name(upto - 1))
    } else {
        spec_flag_names(flags, upto - 1)
    }
}

/// The names of the header flags that are set in `flags`, in table order.
pub fn parse_flags(flags: u32) -> (names: Vec<&'static str>)
    ensures
        names@.len() == spec_flag_names(flags, MACHO_FLAG_COUNT as int).len(),
        forall|k: int|
            0 <= k < names@.len() ==> (#[trigger] names@[k])@ == spec_flag_names(
                flags,
                MACHO_FLAG_COUNT as int,
            )[k],
{
    let mut names: Vec<&'static str> = Vec::new();
    let mut i: usize = 0;
    while i < MACHO_FLAG_COUNT
        invariant
            i <= MACHO_FLAG_COUNT,
            names@.len() == spec_flag_names(flags, i as int).len(),
            forall|k: int|
                0 <= k < names@.len() ==> (#[trigger] names@[k])@ == spec_flag_names(flags, i as int)[k],
        decreases MACHO_FLAG_COUNT - i,
    {
        let flag = macho_flag(i);
        if flags & flag.mask != 0 {
            names.push(flag.name);
        }
        i += 1;
    }
    names
}

/// The header of a 64-bit image, 32 bytes in the file.
#[derive(Debug, Clone, Copy, PartialEq, Eq, Structural)]
pub struct MachHeader64 {
    pub magic: u32,
    pub cputype: i32,
    pub cpusubtype: i32,
    pub filetype: u32,
    pub ncmds: u32,
    pub sizeofcmds: u32,
    pub flags: u32,
    pub reserved: u32,
}

/// The header of a 32-bit image, 28 bytes in the file.
#[derive(Debug, Clone, Copy, PartialEq, Eq, Structural)]
pub struct MachHeader32 {
    pub magic: u32,
    pub cputype: i32,
    pub cpusubtype: i32,
    pub filetype: u32,
    pub ncmds: u32,
    pub sizeofcmds: u32,
    pub flags: u32,
}

#[derive(Debug, Clone, Copy, PartialEq, Eq, Structural)]
pub enum MachOHeader {
    Header32(MachHeader32),
    Header64(MachHeader64),
}

impl MachOHeader {
    pub open spec fn spec_ncmds(&self) -> u32 {
        match self {
            MachOHeader::Header32(h) => h.ncmds,
            MachOHeader::Header64(h) => h.ncmds,
        }
    }

    pub open spec fn spec_sizeofcmds(&self) -> u32 {
        match self {
            MachOHeader::Header32(h) => h.sizeofcmds,
            MachOHeader::Header64(h) => h.sizeofcmds,
        }
    }

    pub open spec fn spec_cputype(&self) -> i32 {
        match self {
            MachOHeader::Header32(h) => h.cputype,
            MachOHeader::Header64(h) => h.cputype,
        }
    }

    pub open spec fn spec_cpusubtype(&self) -> i32 {
        match self {
            MachOHeader::Header32(h) => h.cpusubtype,
            MachOHeader::Header64(h) => h.cpusubtype,
        }
    }

    /// The number of load commands that follow the header.
    #[verifier::when_used_as_spec(spec_ncmds)]
    pub fn ncmds(&self) -> (n: u32)
        ensures
            n == self.spec_ncmds(),
    {
        match self {
            MachOHeader::Header32(h) => h.ncmds,
            MachOHeader::Header64(h) => h.ncmds,
        }
    }

    /// The number of bytes that the load commands take together.
    #[verifier::when_used_as_spec(spec_sizeofcmds)]
    pub fn sizeofcmds(&self) -> (n: u32)
        ensures
            n == self.spec_sizeofcmds(),
    {
        match self {
            MachOHeader::Header32(h) => h.sizeofcmds,
            MachOHeader::Header64(h) => h.sizeofcmds,
        }
    }

    #[verifier::when_used_as_spec(spec_cputype)]
    pub fn cputype(&self) -> (c: i32)
        ensures
            c == self.spec_cputype(),
    {
        match self {
            MachOHeader::Header32(h) => h.cputype,
            MachOHeader::Header64(h) => h.cputype,
        }
    }

    #[verifier::when_used_as_spec(spec_cpusubtype)]
    pub fn cpusubtype(&self) -> (c: i32)
        ensures
            c == self.spec_cpusubtype(),
    {
        match self {
            MachOHeader::Header32(h) => h.cpusubtype,
            MachOHeader::Header64(h) => h.cpusubtype,
        }
    }
}

/// The four thin magic numbers: the word size of the image and its byte
/// order.
#[derive(Debug, Clone, Copy, PartialEq, Eq, Structural)]
pub enum MachOKind {
    Mach32BE,
    Mach32LE,
    Mach64BE,
    Mach64LE,
}

impl MachOKind {
    pub open spec fn spec_is_64(self) -> bool {
        self == MachOKind::Mach64BE || self == MachOKind::Mach64LE
    }

    pub open spec fn spec_is_be(self) -> bool {
        self == MachOKind::Mach32BE || self == MachOKind::Mach64BE
    }

    /// Whether the image is a 64-bit one.
    #[verifier::when_used_as_spec(spec_is_64)]
    pub fn is_64(self) -> (b: bool)
        ensures
            b == self.spec_is_64(),
    {
        matches!(self, MachOKind::Mach64BE | MachOKind::Mach64LE)
    }

    /// Whether the image is big-endian.
    #[verifier::when_used_as_spec(spec_is_be)]
    pub fn is_be(self) -> (b: bool)
        ensures
            b == self.spec_is_be(),
    {
        matches!(self, MachOKind::Mach32BE | MachOKind::Mach64BE)
    }

    /// The size of the header of such an image.
    pub open spec fn header_size(self) -> int {
        if self.spec_is_64() {
            32
        } else {
            28
        }
    }
}

/// A header together with what its magic number said.
#[derive(Debug, Clone, Copy, PartialEq, Eq, Structural)]
pub struct ParsedMachOHeader {
    pub kind: MachOKind,
    pub header: MachOHeader,
}

/// The kind that four magic bytes stand for, if any.
pub open spec fn spec_macho_kind(magic: Seq<u8>) -> Option<MachOKind> {
    if magic == constants::MH_MAGIC@ {
        Some(MachOKind::Mach32BE)
    } else if magic == constants::MH_MAGIC_64@ {
        Some(MachOKind::Mach64BE)
    } else if magic == constants::MH_CIGAM@ {
        Some(MachOKind::Mach32LE)
    } else if magic == constants::MH_CIGAM_64@ {
        Some(MachOKind::Mach64LE)
    } else {
        None
    }
}

/// The header of kind `kind` whose first byte is at `base`.
pub open spec fn spec_header_at(data: Seq<u8>, base: int, kind: MachOKind) -> MachOHeader {
    let be = kind.spec_is_be();
    if kind.spec_is_64() {
        MachOHeader::Header64(
            MachHeader64 {
                magic: u32_at(data, base, be),
                cputype: i32_at(data, base + 4, be),
                cpusubtype: i32_at(data, base + 8, be),
                filetype: u32_at(data, base + 12, be),
                ncmds: u32_at(data, base + 16, be),
                sizeofcmds: u32_at(data, base + 20, be),
                flags: u32_at(data, base + 24, be),
                reserved: u32_at(data, base + 28, be),
            },
        )
    } else {
        MachOHeader::Header32(
            MachHeader32 {
                magic: u32_at(data, base, be),
                cputype: i32_at(data, base + 4, be),
                cpusubtype: i32_at(data, base + 8, be),
                filetype: u32_at(data, base + 12, be),
                ncmds: u32_at(data, base + 16, be),
                sizeofcmds: u32_at(data, base + 20, be),
                flags: u32_at(data, base + 24, be),
            },
        )
    }
}

pub open spec fn header_error(kind: ErrorKind, offset: u64) -> DecodeError {
    DecodeError::at(kind, Stage::MachHeader, 0, offset as int)
}

/// What `read_thin_header` returns. The 28 bytes that every header has must
/// lie inside the file; the magic number at the slice's offset must be a
/// thin one; a 64-bit header must have all of its 32 bytes inside the file.
pub open spec fn spec_read_thin_header(data: Seq<u8>, slice: MachOSlice) -> Result<
    ParsedMachOHeader,
    DecodeError,
> {
    let base = slice.offset as int;
    if base + 28 > data.len() {
        Err(header_error(ErrorKind::TruncatedRecord, slice.offset))
    } else {
        match spec_macho_kind(data.subrange(base, base + 4)) {
            None => Err(header_error(ErrorKind::NotRecognizedContainer, slice.offset)),
            Some(kind) => if base + kind.header_size() > data.len() {
                Err(header_error(ErrorKind::TruncatedRecord, slice.offset))
            } else {
                Ok(ParsedMachOHeader { kind, header: spec_header_at(data, base, kind) })
            },
        }
    }
}

/// Reads the header of the thin image that `slice` points at. Every image
/// of a fat file carries a magic number of its own, so the kind is found
/// anew here.
pub fn read_thin_header(data: &[u8], slice: &MachOSlice) -> (r: Result<ParsedMachOHeader, DecodeError>)
    ensures
        r == spec_read_thin_header(data@, *slice),
{
    if slice.offset > data.len() as u64 || data.len() as u64 - slice.offset < 28 {
        return Err(DecodeError::new(ErrorKind::TruncatedRecord, Stage::MachHeader, 0, slice.offset));
    }
    let base: usize = slice.offset as usize;
    let kind = if magic_is(data, base, &constants::MH_MAGIC) {
        MachOKind::Mach32BE
    } else if magic_is(data, base, &constants::MH_MAGIC_64) {
        MachOKind::Mach64BE
    } else if magic_is(data, base, &constants::MH_CIGAM) {
        MachOKind::Mach32LE
    } else if magic_is(data, base, &constants::MH_CIGAM_64) {
        MachOKind::Mach64LE
    } else {
        return Err(DecodeError::new(ErrorKind::NotRecognizedContainer, Stage::MachHeader, 0, slice.offset));
    };
    let be = kind.is_be();
    if kind.is_64() {
        if data.len() - base < constants::MACH_HEADER64_SIZE {
            return Err(DecodeError::new(ErrorKind::TruncatedRecord, Stage::MachHeader, 0, slice.offset));
        }
        let header64 = MachHeader64 {
            magic: read_u32(data, base, be),
            cputype: read_i32(data, base + 4, be),
            cpusubtype: read_i32(data, base + 8, be),
            filetype: read_u32(data, base + 12, be),
            ncmds: read_u32(data, base + 16, be),
            sizeofcmds: read_u32(data, base + 20, be),
            flags: read_u32(data, base + 24, be),
            reserved: read_u32(data, base + 28, be),
        };
        Ok(ParsedMachOHeader { kind, header: MachOHeader::Header64(header64) })
    } else {
        let header32 = MachHeader32 {
            magic: read_u32(data, base, be),
            cputype: read_i32(data, base + 4, be),
            cpusubtype: read_i32(data, base + 8, be),
            filetype: read_u32(data, base + 12, be),
            ncmds: read_u32(data, base + 16, be),
            sizeofcmds: read_u32(data, base + 20, be),
            flags: read_u32(data, base + 24, be),
        };
        Ok(ParsedMachOHeader { kind, header: MachOHeader::Header32(header32) })
    }
}

impl MachOHeader {
    pub open spec fn spec_magic(&self) -> u32 {
        match self {
            MachOHeader::Header32(h) => h.magic,
            MachOHeader::Header64(h) => h.magic,
        }
    }

    pub open spec fn spec_filetype(&self) -> u32 {
        match self {
            MachOHeader::Header32(h) => h.filetype,
            MachOHeader::Header64(h) => h.filetype,
        }
    }

    pub open spec fn spec_flags(&self) -> u32 {
        match self {
            MachOHeader::Header32(h) => h.flags,
            MachOHeader::Header64(h) => h.flags,
        }
    }

    /// The magic number as the header's byte order reads it.
    #[verifier::when_used_as_spec(spec_magic)]
    pub fn magic(&self) -> (m: u32)
        ensures
            m == self.spec_magic(),
    {
        match self {
            MachOHeader::Header32(h) => h.magic,
            MachOHeader::Header64(h) => h.magic,
        }
    }

    #[verifier::when_used_as_spec(spec_filetype)]
    pub fn filetype(&self) -> (t: u32)
        ensures
            t == self.spec_filetype(),
    {
        match self {
            MachOHeader::Header32(h) => h.filetype,
            MachOHeader::Header64(h) => h.filetype,
        }
    }

    #[verifier::when_used_as_spec(spec_flags)]
    pub fn flags(&self) -> (f: u32)
        ensures
            f == self.spec_flags(),
    {
        match self {
            MachOHeader::Header32(h) => h.flags,
            MachOHeader::Header64(h) => h.flags,
        }
    }

    /// What the report of the header says.
    pub open spec fn spec_report(&self) -> MachHeaderReportModel {
        MachHeaderReportModel {
            magic: self.spec_magic(),
            file_type: constants::spec_filetype_name(self.spec_filetype()),
            cpu_type: constants::spec_cpu_type_name(self.spec_cputype()),
            cpu_subtype: constants::spec_cpu_subtype_name(self.spec_cputype(), self.spec_cpusubtype()),
            ncmds: self.spec_ncmds(),
            sizeofcmds: self.spec_sizeofcmds(),
            flags: spec_flag_names(self.spec_flags(), MACHO_FLAG_COUNT as int),
        }
    }

    /// Reports the header with its numbers turned into names.
    pub fn build_report(&self, _json: bool) -> (report: MachHeaderReport)
        ensures
            report@ == self.spec_report(),
    {
        let names = parse_flags(self.flags());
        let mut flags: Vec<String> = Vec::new();
        let mut i: usize = 0;
        while i < names.len()
            invariant
                i <= names@.len(),
                flags@.len() == i,
                forall|k: int| 0 <= k < i ==> (#[trigger] flags@[k])@ == names@[k]@,
            decreases names@.len() - i,
        {
            flags.push(names[i].to_owned());
            i += 1;
        }
        proof {
            assert(crate::macho::error::views(flags@) =~= spec_flag_names(
                self.spec_flags(),
                MACHO_FLAG_COUNT as int,
            ));
        }
        MachHeaderReport {
            magic: self.magic(),
            file_type: constants::filetype_name(self.filetype()).to_owned(),
            cpu_type: constants::cpu_type_name(self.cputype()).to_owned(),
            cpu_subtype: constants::cpu_subtype_name(self.cputype(), self.cpusubtype()).to_owned(),
            ncmds: self.ncmds(),
            sizeofcmds: self.sizeofcmds(),
            flags,
        }
    }
}

} // verus!
