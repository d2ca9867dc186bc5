//! The libraries that an image depends on.

use vstd::prelude::*;
use vstd::slice::slice_subrange;
use vstd::utf8::{decode_utf8, valid_utf8};
use crate::macho::constants;
use crate::macho::error::{result_is, DecodeError, ErrorKind, Stage};
use crate::macho::load_commands::LoadCommand;
use crate::reporting::dylibs::{DylibReport, DylibReportModel};
use crate::macho::text::{string_from_utf8_lossy, utf8_lossy};
use crate::macho::utils::{find_nul, has_nul, read_u32, u32_at, until_nul};

verus! {

/// How an image depends on a library, by the opcode of the command.
#[derive(Debug, Clone, Copy, PartialEq, Eq, Structural)]
pub enum DylibKind {
    /// The library's own name: `LC_ID_DYLIB`.
    Id,
    Load,
    Weak,
    Reexport,
    Lazy,
    Upward,
    /// The opcode is none of the six that name a library.
    Unknown,
}

/// A decoded library command.
#[derive(Debug, Clone)]
pub struct ParsedDylib {
    pub path: String,
    pub timestamp: u32,
    pub current_version: u32,
    pub compatibility_version: u32,
    pub kind: DylibKind,
    pub source_lc: LoadCommand,
}

/// What a decoded library command holds.
pub struct DylibModel {
    pub path: Seq<char>,
    pub timestamp: u32,
    pub current_version: u32,
    pub compatibility_version: u32,
    pub kind: DylibKind,
    pub source_lc: LoadCommand,
}

impl View for ParsedDylib {
    type V = DylibModel;

    open spec fn view(&self) -> DylibModel {
        DylibModel {
            path: self.path@,
            timestamp: self.timestamp,
            current_version: self.current_version,
            compatibility_version: self.compatibility_version,
            kind: self.kind,
            source_lc: self.source_lc,
        }
    }
}

/// The kind of dependency that an opcode stands for, with or without
/// `LC_REQ_DYLD` in it.
pub open spec fn spec_dylib_kind(cmd: u32) -> DylibKind {
    match cmd & !constants::LC_REQ_DYLD {
        constants::LC_ID_DYLIB => DylibKind::Id,
        constants::LC_LOAD_DYLIB => DylibKind::Load,
        constants::LC_LOAD_WEAK_DYLIB => DylibKind::Weak,
        constants::LC_REEXPORT_DYLIB => DylibKind::Reexport,
        constants::LC_LAZY_LOAD_DYLIB => DylibKind::Lazy,
        constants::LC_LOAD_UPWARD_DYLIB => DylibKind::Upward,
        _ => DylibKind::Unknown,
    }
}

/// Tells the kind of dependency from the opcode of a command.
pub fn dylib_kind(cmd: u32) -> (kind: DylibKind)
    ensures
        kind == spec_dylib_kind(cmd),
{
    match cmd & !constants::LC_REQ_DYLD {
        constants::LC_ID_DYLIB => DylibKind::Id,
        constants::LC_LOAD_DYLIB => DylibKind::Load,
        constants::LC_LOAD_WEAK_DYLIB => DylibKind::Weak,
        constants::LC_REEXPORT_DYLIB => DylibKind::Reexport,
        constants::LC_LAZY_LOAD_DYLIB => DylibKind::Lazy,
        constants::LC_LOAD_UPWARD_DYLIB => DylibKind::Upward,
        _ => DylibKind::Unknown,
    }
}

/// Why the string of a command cannot be had, if it cannot. The command
/// must lie inside the file, with all of its `fixed` leading bytes; the
/// offset stored eight bytes into it must point inside the command; and a
/// NUL byte must end the string before the command ends.
pub open spec fn spec_lc_str_error(
    data: Seq<u8>,
    lc: LoadCommand,
    is_be: bool,
    fixed: int,
    stage: Stage,
) -> Option<DecodeError> {
    let base = lc.offset as int;
    let end = base + lc.cmdsize;
    if end > data.len() {
        Some(DecodeError::at(ErrorKind::OutOfBoundsReference, stage, 0, base))
    } else if base + fixed > data.len() {
        Some(DecodeError::at(ErrorKind::TruncatedRecord, stage, 0, base))
    } else {
        let start = base + u32_at(data, base + 8, is_be);
        if start >= end {
            Some(DecodeError::at(ErrorKind::OutOfBoundsReference, stage, 0, base))
        } else if !has_nul(data.subrange(start, end)) {
            Some(DecodeError::at(ErrorKind::UnterminatedString, stage, 0, base))
        } else {
            None
        }
    }
}

/// The bytes of the string of a command, without the NUL byte that ends
/// them.
pub open spec fn spec_lc_str_bytes(data: Seq<u8>, lc: LoadCommand, is_be: bool) -> Seq<u8> {
    let base = lc.offset as int;
    let start = base + u32_at(data, base + 8, is_be);
    until_nul(data.subrange(start, base + lc.cmdsize))
}

/// Finds the string of a command: the place of its first byte and its
/// length.
pub(crate) fn locate_lc_str(data: &[u8], lc: &LoadCommand, is_be: bool, fixed: usize, stage: Stage) -> (r: Result<
    (usize, usize),
    DecodeError,
>)
    requires
        12 <= fixed <= 80,
    ensures
        (match spec_lc_str_error(data@, *lc, is_be, fixed as int, stage) {
            Some(e) => r == Err::<(usize, usize), DecodeError>(e),
            None => r is Ok && data@.subrange(r->Ok_0.0 as int, r->Ok_0.0 + r->Ok_0.1)
                == spec_lc_str_bytes(data@, *lc, is_be),
        }),
        r is Ok ==> r->Ok_0.0 + r->Ok_0.1 <= data.len() && lc.offset + fixed <= data.len(),
{
    let len = data.len() as u64;
    if lc.offset > len || len - lc.offset < lc.cmdsize as u64 {
        return Err(DecodeError::new(ErrorKind::OutOfBoundsReference, stage, 0, lc.offset));
    }
    let base: usize = lc.offset as usize;
    let end: usize = base + lc.cmdsize as usize;
    if data.len() - base < fixed {
        return Err(DecodeError::new(ErrorKind::TruncatedRecord, stage, 0, lc.offset));
    }
    let name_offset: u32 = read_u32(data, base + 8, is_be);
    if name_offset >= lc.cmdsize {
        return Err(DecodeError::new(ErrorKind::OutOfBoundsReference, stage, 0, lc.offset));
    }
    let start: usize = base + name_offset as usize;
    let n = find_nul(data, start, end);
    if start + n == end {
        return Err(DecodeError::new(ErrorKind::UnterminatedString, stage, 0, lc.offset));
    }
    Ok((start, n))
}

/// What `parse_dylib` returns.
pub open spec fn spec_parse_dylib(data: Seq<u8>, lc: LoadCommand, is_be: bool) -> Result<
    DylibModel,
    DecodeError,
> {
    match spec_lc_str_error(data, lc, is_be, 24, Stage::Dylib) {
        Some(e) => Err(e),
        None => Ok(
            DylibModel {
                path: utf8_lossy(spec_lc_str_bytes(data, lc, is_be)),
                timestamp: u32_at(data, lc.offset + 12, is_be),
                current_version: u32_at(data, lc.offset + 16, is_be),
                compatibility_version: u32_at(data, lc.offset + 20, is_be),
                kind: spec_dylib_kind(lc.cmd),
                source_lc: lc,
            },
        ),
    }
}

/// Decodes a library command: the path of the library, its time stamp and
/// versions, and the kind of dependency. The path is decoded lossily.
pub fn parse_dylib(data: &[u8], lc: &LoadCommand, is_be: bool) -> (r: Result<ParsedDylib, DecodeError>)
    ensures
        result_is(r, spec_parse_dylib(data@, *lc, is_be)),
        r is Ok && valid_utf8(spec_lc_str_bytes(data@, *lc, is_be)) ==> r->Ok_0.path@ == decode_utf8(
            spec_lc_str_bytes(data@, *lc, is_be),
        ),
{
    let (start, n) = locate_lc_str(data, lc, is_be, constants::DYLIB_COMMAND_SIZE, Stage::Dylib)?;
    let base: usize = lc.offset as usize;
    let timestamp = read_u32(data, base + 12, is_be);
    let current_version = read_u32(data, base + 16, is_be);
    let compat_version = read_u32(data, base + 20, is_be);
    let path = string_from_utf8_lossy(slice_subrange(data, start, start + n));
    Ok(
        ParsedDylib {
            path,
            timestamp,
            current_version,
            compatibility_version: compat_version,
            kind: dylib_kind(lc.cmd),
            source_lc: *lc,
        },
    )
}

impl DylibKind {
    /// The kind in capitals, as lists of libraries show it.
    pub open spec fn spec_label(self) -> Seq<char> {
        match self {
            DylibKind::Id => "ID"@,
            DylibKind::Load => "LOAD"@,
            DylibKind::Weak => "WEAK"@,
            DylibKind::Reexport => "REEXPORT"@,
            DylibKind::Lazy => "LAZY"@,
            DylibKind::Upward => "UPWARD"@,
            DylibKind::Unknown => "UNKNOWN"@,
        }
    }

    /// The kind in capitals.
    pub fn label(&self) -> (text: &'static str)
        ensures
            text@ == self.spec_label(),
    {
        match self {
            DylibKind::Id => "ID",
            DylibKind::Load => "LOAD",
            DylibKind::Weak => "WEAK",
            DylibKind::Reexport => "REEXPORT",
            DylibKind::Lazy => "LAZY",
            DylibKind::Upward => "UPWARD",
            DylibKind::Unknown => "UNKNOWN",
        }
    }
}

/// What the report of a library says.
pub open spec fn spec_dylib_report(dylib: DylibModel) -> DylibReportModel {
    DylibReportModel {
        path: dylib.path,
        timestamp: dylib.timestamp,
        current_version: dylib.current_version,
        compatibility_version: dylib.compatibility_version,
        kind: dylib.kind.spec_label(),
        load_command: dylib.source_lc.spec_report(),
    }
}

impl ParsedDylib {
    /// Reports the library.
    pub fn build_report(&self, json: bool) -> (report: DylibReport)
        ensures
            report@ == spec_dylib_report(self@),
    {
        DylibReport {
            path: self.path.clone(),
            timestamp: self.timestamp,
            current_version: self.current_version,
            compatibility_version: self.compatibility_version,
            kind: self.kind.label().to_owned(),
            load_command: self.source_lc.build_report(json),
        }
    }
}

} // verus!
