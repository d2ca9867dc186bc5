//! Segment commands and the section records that follow each of them.

use vstd::prelude::*;
use crate::macho::constants;
use crate::macho::error::{result_is, views, DecodeError, ErrorKind, Stage};
use crate::macho::sections::{
    read_section32_from_bytes, read_section64_from_bytes, section_error, section_size,
    spec_section_at, ParsedSection, SectionModel,
};
use crate::macho::sections::spec_section_report;
use crate::macho::utils::{
    byte_array_to_string, i32_at, name_at, read_i32, read_name, read_u32, read_u64,
    spec_name_text, u32_at, u64_at,
};
use crate::reporting::sections::SectionReport;
use crate::reporting::segments::{SegmentReport, SegmentReportModel};

verus! {

/// The segment command of a 32-bit image as it stands in the file, 56
/// bytes.
#[derive(Debug, Clone, Copy)]
pub struct SegmentCommand {
    pub cmd: u32,
    pub cmdsize: u32,
    pub segname: [u8; 16],
    pub vmaddr: u32,
    pub vmsize: u32,
    pub fileoff: u32,
    pub filesize: u32,
    pub maxprot: i32,
    pub initprot: i32,
    pub nsects: u32,
    pub flags: u32,
}

/// The segment command of a 64-bit image as it stands in the file, 72
/// bytes.
#[derive(Debug, Clone, Copy)]
pub struct SegmentCommand64 {
    pub cmd: u32,
    pub cmdsize: u32,
    pub segname: [u8; 16],
    pub vmaddr: u64,
    pub vmsize: u64,
    pub fileoff: u64,
    pub filesize: u64,
    pub maxprot: i32,
    pub initprot: i32,
    pub nsects: u32,
    pub flags: u32,
}

/// A decoded segment with its sections in the order of the file. The number
/// of sections that the record announced is the length of `sections`.
#[derive(Debug, Clone)]
pub struct ParsedSegment {
    pub segname: [u8; 16],
    pub vmaddr: u64,
    pub vmsize: u64,
    pub fileoff: u64,
    pub filesize: u64,
    pub maxprot: i32,
    pub initprot: i32,
    pub flags: u32,
    pub sections: Vec<ParsedSection>,
}

/// What a decoded segment holds.
pub struct SegmentModel {
    pub segname: Seq<u8>,
    pub vmaddr: u64,
    pub vmsize: u64,
    pub fileoff: u64,
    pub filesize: u64,
    pub maxprot: i32,
    pub initprot: i32,
    pub flags: u32,
    pub sections: Seq<SectionModel>,
}

impl View for ParsedSegment {
    type V = SegmentModel;

    open spec fn view(&self) -> SegmentModel {
        SegmentModel {
            segname: self.segname@,
            vmaddr: self.vmaddr,
            vmsize: self.vmsize,
            fileoff: self.fileoff,
            filesize: self.filesize,
            maxprot: self.maxprot,
            initprot: self.initprot,
            flags: self.flags,
            sections: views(self.sections@),
        }
    }
}

/// The size of a segment command without its sections.
pub open spec fn segment_command_size(is_64: bool) -> int {
    if is_64 {
        72
    } else {
        56
    }
}

/// The number of sections that the segment command at `off` announces.
pub open spec fn spec_nsects(data: Seq<u8>, off: int, is_be: bool, is_64: bool) -> u32 {
    if is_64 {
        u32_at(data, off + 64, is_be)
    } else {
        u32_at(data, off + 48, is_be)
    }
}

/// Where section `i` of the segment command at `off` starts: the sections
/// follow the command back to back.
pub open spec fn section_offset(off: int, i: int, is_64: bool) -> int {
    if is_64 {
        off + 72 + 80 * i
    } else {
        off + 56 + 68 * i
    }
}

/// How many whole section records a file of `len` bytes has room for behind
/// the segment command at `off`.
pub open spec fn sections_that_fit(off: int, len: int, is_64: bool) -> int {
    if is_64 {
        (len - (off + 72)) / 80
    } else {
        (len - (off + 56)) / 68
    }
}

/// The segment whose command starts at `off`, with its first `nsects`
/// sections.
pub open spec fn spec_segment_at(data: Seq<u8>, off: int, is_be: bool, is_64: bool) -> SegmentModel {
    let sections = Seq::new(
        spec_nsects(data, off, is_be, is_64) as nat,
        |i: int| spec_section_at(data, section_offset(off, i, is_64), is_be, is_64),
    );
    if is_64 {
        SegmentModel {
            segname: name_at(data, off + 8),
            vmaddr: u64_at(data, off + 24, is_be),
            vmsize: u64_at(data, off + 32, is_be),
            fileoff: u64_at(data, off + 40, is_be),
            filesize: u64_at(data, off + 48, is_be),
            maxprot: i32_at(data, off + 56, is_be),
            initprot: i32_at(data, off + 60, is_be),
            flags: u32_at(data, off + 68, is_be),
            sections,
        }
    } else {
        SegmentModel {
            segname: name_at(data, off + 8),
            vmaddr: u32_at(data, off + 24, is_be) as u64,
            vmsize: u32_at(data, off + 28, is_be) as u64,
            fileoff: u32_at(data, off + 32, is_be) as u64,
            filesize: u32_at(data, off + 36, is_be) as u64,
            maxprot: i32_at(data, off + 40, is_be),
            initprot: i32_at(data, off + 44, is_be),
            flags: u32_at(data, off + 52, is_be),
            sections,
        }
    }
}

/// What the two segment parsers return. The segment command must lie inside
/// the file, and so must each of the section records that it announces; the
/// error names the first section that does not.
pub open spec fn spec_parse_segment(data: Seq<u8>, off: int, is_be: bool, is_64: bool) -> Result<
    SegmentModel,
    DecodeError,
> {
    if off + segment_command_size(is_64) > data.len() {
        Err(DecodeError::at(ErrorKind::TruncatedRecord, Stage::Segment, 0, off))
    } else {
        let fit = sections_that_fit(off, data.len() as int, is_64);
        if spec_nsects(data, off, is_be, is_64) <= fit {
            Ok(spec_segment_at(data, off, is_be, is_64))
        } else {
            Err(section_error(0, section_offset(off, fit, is_64)))
        }
    }
}

/// Reads the `nsects` section records that follow the segment command at
/// `off`.
fn read_sections(data: &[u8], off: usize, nsects: u32, is_be: bool, is_64: bool) -> (r: Result<
    Vec<ParsedSection>,
    DecodeError,
>)
    requires
        off + segment_command_size(is_64) <= data.len(),
    ensures
        nsects <= sections_that_fit(off as int, data@.len() as int, is_64) ==> r is Ok && views(
            r->Ok_0@,
        ) == Seq::new(
            nsects as nat,
            |i: int| spec_section_at(data@, section_offset(off as int, i, is_64), is_be, is_64),
        ),
        nsects > sections_that_fit(off as int, data@.len() as int, is_64) ==> r == Err::<
            Vec<ParsedSection>,
            DecodeError,
        >(
            section_error(
                0,
                section_offset(
                    off as int,
                    sections_that_fit(off as int, data@.len() as int, is_64),
                    is_64,
                ),
            ),
        ),
{
    let size: usize = if is_64 {
        constants::SECTION64_SIZE
    } else {
        constants::SECTION32_SIZE
    };
    let mut sections: Vec<ParsedSection> = Vec::new();
    let mut sect_offset: usize = if is_64 {
        off + constants::SEGMENT_COMMAND64_SIZE
    } else {
        off + constants::SEGMENT_COMMAND32_SIZE
    };
    let mut i: u32 = 0;
    while i < nsects
        invariant
            i <= nsects,
            size == section_size(is_64),
            sect_offset == section_offset(off as int, i as int, is_64),
            sect_offset <= data@.len(),
            i <= sections_that_fit(off as int, data@.len() as int, is_64),
            sections@.len() == i,
            forall|k: int|
                0 <= k < i ==> (#[trigger] sections@[k])@ == spec_section_at(
                    data@,
                    section_offset(off as int, k, is_64),
                    is_be,
                    is_64,
                ),
        decreases nsects - i,
    {
        if data.len() - sect_offset < size {
            return Err(DecodeError::new(ErrorKind::TruncatedRecord, Stage::Section, 0, sect_offset as u64));
        }
        let section = if is_64 {
            read_section64_from_bytes(data, is_be, sect_offset)?
        } else {
            read_section32_from_bytes(data, is_be, sect_offset)?
        };
        sections.push(section);
        sect_offset += size;
        i += 1;
    }
    Ok(sections)
}

/// Decodes the 32-bit segment command at `offset` and the sections that
/// follow it; its addresses and sizes are widened to 64 bits.
pub fn parse_segment_32(data: &[u8], offset: usize, is_be: bool) -> (r: Result<ParsedSegment, DecodeError>)
    ensures
        result_is(r, spec_parse_segment(data@, offset as int, is_be, false)),
        r is Ok ==> r->Ok_0.sections@.len() == spec_nsects(data@, offset as int, is_be, false),
{
    if offset > data.len() || data.len() - offset < constants::SEGMENT_COMMAND32_SIZE {
        return Err(DecodeError::new(ErrorKind::TruncatedRecord, Stage::Segment, 0, offset as u64));
    }
    let segname = read_name(data, offset + 8);
    let vmaddr = read_u32(data, offset + 24, is_be) as u64;
    let vmsize = read_u32(data, offset + 28, is_be) as u64;
    let fileoff = read_u32(data, offset + 32, is_be) as u64;
    let filesize = read_u32(data, offset + 36, is_be) as u64;
    let maxprot = read_i32(data, offset + 40, is_be);
    let initprot = read_i32(data, offset + 44, is_be);
    let nsects = read_u32(data, offset + 48, is_be);
    let flags = read_u32(data, offset + 52, is_be);
    let sections = read_sections(data, offset, nsects, is_be, false)?;
    assert(views(sections@).len() == sections@.len());
    Ok(ParsedSegment { segname, vmaddr, vmsize, fileoff, filesize, maxprot, initprot, flags, sections })
}

/// Decodes the 64-bit segment command at `offset` and the sections that
/// follow it.
pub fn parse_segment_64(data: &[u8], offset: usize, is_be: bool) -> (r: Result<ParsedSegment, DecodeError>)
    ensures
        result_is(r, spec_parse_segment(data@, offset as int, is_be, true)),
        r is Ok ==> r->Ok_0.sections@.len() == spec_nsects(data@, offset as int, is_be, true),
{
    if offset > data.len() || data.len() - offset < constants::SEGMENT_COMMAND64_SIZE {
        return Err(DecodeError::new(ErrorKind::TruncatedRecord, Stage::Segment, 0, offset as u64));
    }
    let segname = read_name(data, offset + 8);
    let vmaddr = read_u64(data, offset + 24, is_be);
    let vmsize = read_u64(data, offset + 32, is_be);
    let fileoff = read_u64(data, offset + 40, is_be);
    let filesize = read_u64(data, offset + 48, is_be);
    let maxprot = read_i32(data, offset + 56, is_be);
    let initprot = read_i32(data, offset + 60, is_be);
    let nsects = read_u32(data, offset + 64, is_be);
    let flags = read_u32(data, offset + 68, is_be);
    let sections = read_sections(data, offset, nsects, is_be, true)?;
    assert(views(sections@).len() == sections@.len());
    Ok(ParsedSegment { segname, vmaddr, vmsize, fileoff, filesize, maxprot, initprot, flags, sections })
}

/// The protections of a segment as three characters: `R`, `W` and `X` for
/// what is allowed, and `-` in the place of what is not.
pub open spec fn spec_protection_text(prot: i32) -> Seq<char> {
    seq![
        if prot & 0x1 != 0 {
            'R'
        } else {
            '-'
        },
        if prot & 0x2 != 0 {
            'W'
        } else {
            '-'
        },
        if prot & 0x4 != 0 {
            'X'
        } else {
            '-'
        },
    ]
}

/// Writes the protections of a segment as three characters.
pub fn protection_text(prot: i32) -> (text: String)
    ensures
        text@ == spec_protection_text(prot),
{
    let mut text = String::new();
    text.push(
        if prot & 0x1 != 0 {
            'R'
        } else {
            '-'
        },
    );
    text.push(
        if prot & 0x2 != 0 {
            'W'
        } else {
            '-'
        },
    );
    text.push(
        if prot & 0x4 != 0 {
            'X'
        } else {
            '-'
        },
    );
    text
}

/// What the report of a segment says.
pub open spec fn spec_segment_report(segment: SegmentModel) -> SegmentReportModel {
    SegmentReportModel {
        name: spec_name_text(segment.segname),
        vmaddr: segment.vmaddr,
        vmsize: segment.vmsize,
        fileoff: segment.fileoff,
        filesize: segment.filesize,
        maxprot: spec_protection_text(segment.maxprot),
        initprot: spec_protection_text(segment.initprot),
        sections: Seq::new(segment.sections.len(), |i: int| spec_section_report(segment.sections[i])),
    }
}

impl ParsedSegment {
    /// Reports the segment and its sections.
    pub fn build_report(&self, _json: bool) -> (report: SegmentReport)
        ensures
            report@ == spec_segment_report(self@),
    {
        let mut sections: Vec<SectionReport> = Vec::new();
        let mut i: usize = 0;
        while i < self.sections.len()
            invariant
                i <= self.sections@.len(),
                sections@.len() == i,
                forall|k: int|
                    0 <= k < i ==> (#[trigger] sections@[k])@ == spec_section_report(self.sections@[k]@),
            decreases self.sections@.len() - i,
        {
            sections.push(self.sections[i].build_report());
            i += 1;
        }
        proof {
            assert(views(sections@) =~= Seq::new(
                self@.sections.len(),
                |i: int| spec_section_report(self@.sections[i]),
            ));
        }
        SegmentReport {
            name: byte_array_to_string(&self.segname),
            vmaddr: self.vmaddr,
            vmsize: self.vmsize,
            fileoff: self.fileoff,
            filesize: self.filesize,
            maxprot: protection_text(self.maxprot),
            initprot: protection_text(self.initprot),
            sections,
        }
    }
}

} // verus!
