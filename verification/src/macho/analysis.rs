//! The analysis of one image, from its header to its symbols and strings.

use vstd::prelude::*;
use vstd::utf8::encode_utf8;
use crate::macho::constants;
use crate::macho::dylibs::{parse_dylib, spec_parse_dylib, DylibModel, ParsedDylib};
use crate::macho::error::{
    result_is, vec_result_is, views, views_result_is, DecodeError, ErrorKind, Stage,
};
use crate::macho::header::{
    read_thin_header, spec_read_thin_header, MachOKind, MachOSlice, ParsedMachOHeader,
};
use crate::macho::load_commands::{
    lemma_cmdsizes_are_aligned, read_load_commands, sizes_add_up_to, spec_read_load_commands,
    total_cmdsize, LoadCommand,
};
use crate::macho::memory_image::{spec_image, spec_min_addr, spec_read_section, MachOMemoryImage};
use crate::macho::resolve::{
    all_sections, attach_section_names, resolve_symbols, spec_all_sections,
    spec_attach_section_names, spec_resolve_symbols,
};
use crate::macho::rpaths::{parse_rpath, spec_parse_rpath, ParsedRPath, RPathModel};
use crate::macho::sections::{ParsedSection, SectionKind, SectionModel};
use crate::macho::segments::{
    parse_segment_32, parse_segment_64, spec_parse_segment, ParsedSegment, SegmentModel,
};
use crate::macho::symtab::{
    extract_matching_strings, extract_strings, parse_dysymtab_command, parse_symtab_command,
    read_indirect_symbols, read_symbols, spec_extract_filtered_strings, spec_extract_strings,
    spec_parse_dysymtab_command, spec_parse_symtab_command, spec_read_indirect_symbols,
    spec_read_symbols, text_of, DYSymtabCommand, ParsedString, ParsedSymbol, StringModel,
    SymbolModel, SymtabCommand,
};
use crate::macho::text::{CompiledPattern, PatternError};
use crate::macho::utils::{byte_array_to_string, spec_name_text};

verus! {

/// Which strings are looked for, and where.
#[derive(Debug, Clone)]
pub struct StringOptions {
    /// The least number of bytes of a string; it does not apply where a
    /// pattern is given.
    pub min_len: usize,
    /// A regular expression that a string must match.
    pub pattern: Option<String>,
    /// Where given, only sections with one of these names are searched.
    pub only_sections: Option<Vec<String>>,
    /// Sections with one of these names are not searched.
    pub skip_sections: Option<Vec<String>>,
}

/// The names of an optional list.
pub open spec fn names_of(list: Option<Vec<String>>) -> Option<Seq<Seq<char>>> {
    match list {
        Some(list) => Some(views(list@)),
        None => None,
    }
}

/// Whether a section is searched for strings: its name is not among those
/// to skip, it is among those asked for where any were, and it is a
/// section of string literals that is not empty.
pub open spec fn section_is_searched(
    section: SectionModel,
    only: Option<Seq<Seq<char>>>,
    skip: Option<Seq<Seq<char>>>,
) -> bool {
    let name = spec_name_text(section.sectname);
    &&& skip is Some ==> !skip->Some_0.contains(name)
    &&& only is Some ==> only->Some_0.contains(name)
    &&& section.kind == SectionKind::CString
    &&& section.size > 0
}

/// The strings of the bytes of a section that are candidates: those that
/// the pattern matches where there is one, and otherwise those of at least
/// `min_len` bytes.
pub open spec fn spec_candidates(bytes: Seq<u8>, min_len: int, pattern: Option<Seq<char>>) -> Seq<Seq<char>> {
    match pattern {
        Some(pattern) => spec_extract_filtered_strings(bytes, pattern),
        None => spec_extract_strings(bytes, min_len),
    }
}

/// The strings among `found` that are not empty, each with the names of the
/// segment and the section that it was found in.
pub open spec fn spec_tag_strings(found: Seq<Seq<char>>, segname: Seq<u8>, sectname: Seq<u8>) -> Seq<
    StringModel,
>
    decreases found.len(),
{
    if found.len() == 0 {
        Seq::empty()
    } else if found.last().len() == 0 {
        spec_tag_strings(found.drop_last(), segname, sectname)
    } else {
        spec_tag_strings(found.drop_last(), segname, sectname).push(
            StringModel { value: found.last(), segname, sectname },
        )
    }
}

/// The strings of one section, read from the image by the section's
/// address.
pub open spec fn spec_section_strings(
    base: u64,
    image: Seq<u8>,
    segname: Seq<u8>,
    section: SectionModel,
    min_len: int,
    pattern: Option<Seq<char>>,
    only: Option<Seq<Seq<char>>>,
    skip: Option<Seq<Seq<char>>>,
) -> Seq<StringModel> {
    if section_is_searched(section, only, skip) {
        match spec_read_section(base, image, section) {
            Some(bytes) => spec_tag_strings(
                spec_candidates(bytes, min_len, pattern),
                segname,
                section.sectname,
            ),
            None => Seq::empty(),
        }
    } else {
        Seq::empty()
    }
}

/// The strings of the first `n` sections of a segment.
pub open spec fn spec_segment_strings(
    base: u64,
    image: Seq<u8>,
    segment: SegmentModel,
    n: int,
    min_len: int,
    pattern: Option<Seq<char>>,
    only: Option<Seq<Seq<char>>>,
    skip: Option<Seq<Seq<char>>>,
) -> Seq<StringModel>
    decreases n,
{
    if n <= 0 {
        Seq::empty()
    } else {
        spec_segment_strings(base, image, segment, n - 1, min_len, pattern, only, skip)
            + spec_section_strings(
            base,
            image,
            segment.segname,
            segment.sections[n - 1],
            min_len,
            pattern,
            only,
            skip,
        )
    }
}

/// The strings of the first `n` segments, in the order of the file.
pub open spec fn spec_collect_strings(
    base: u64,
    image: Seq<u8>,
    segments: Seq<SegmentModel>,
    n: int,
    min_len: int,
    pattern: Option<Seq<char>>,
    only: Option<Seq<Seq<char>>>,
    skip: Option<Seq<Seq<char>>>,
) -> Seq<StringModel>
    decreases n,
{
    if n <= 0 {
        Seq::empty()
    } else {
        spec_collect_strings(base, image, segments, n - 1, min_len, pattern, only, skip)
            + spec_segment_strings(
            base,
            image,
            segments[n - 1],
            segments[n - 1].sections.len() as int,
            min_len,
            pattern,
            only,
            skip,
        )
    }
}

/// Whether `name` is one of the names of `list`.
pub fn name_is_listed(list: &Vec<String>, name: &String) -> (listed: bool)
    ensures
        listed == views(list@).contains(name@),
{
    let mut i: usize = 0;
    while i < list.len()
        invariant
            i <= list@.len(),
            forall|k: int| 0 <= k < i ==> (#[trigger] list@[k])@ != name@,
        decreases list@.len() - i,
    {
        if list[i] == *name {
            assert(views(list@)[i as int] == name@);
            return true;
        }
        i += 1;
    }
    false
}

/// Tags the strings that are not empty with the names of the segment and
/// the section that they were found in, and adds them to `strings`.
pub fn tag_strings(strings: &mut Vec<ParsedString>, found: &Vec<String>, segname: &[u8; 16], sectname: &[u8; 16])
    ensures
        views(final(strings)@) == views(old(strings)@) + spec_tag_strings(
            views(found@),
            segname@,
            sectname@,
        ),
{
    let ghost before = views(strings@);
    let mut i: usize = 0;
    while i < found.len()
        invariant
            i <= found@.len(),
            views(strings@) == before + spec_tag_strings(views(found@).take(i as int), segname@, sectname@),
        decreases found@.len() - i,
    {
        let ghost current = views(strings@);
        proof {
            assert(views(found@).take(i + 1).drop_last() =~= views(found@).take(i as int));
        }
        if !found[i].as_str().is_empty() {
            let tagged = ParsedString { value: found[i].clone(), segname: *segname, sectname: *sectname };
            strings.push(tagged);
            proof {
                assert(views(strings@) =~= current.push(tagged@));
            }
        }
        i += 1;
    }
    proof {
        assert(views(found@).take(found@.len() as int) =~= views(found@));
    }
}

/// The text of the pattern that was compiled, where there is one.
pub open spec fn pattern_of(compiled: Option<&CompiledPattern>) -> Option<Seq<char>> {
    match compiled {
        Some(pattern) => Some(pattern@),
        None => None,
    }
}

/// Collects the strings of an image for a pattern that is compiled
/// already, or for none. Each section of string literals that is to be
/// searched is read from the image by its address, and its strings are
/// tagged with the names of the segment and the section. Of `options`
/// the minimum length and the two lists of sections count; the pattern
/// is the compiled one.
pub fn collect_strings_with(
    segments: &[ParsedSegment],
    image: &MachOMemoryImage,
    options: &StringOptions,
    compiled: Option<&CompiledPattern>,
) -> (strings: Vec<ParsedString>)
    ensures
        views(strings@) == spec_collect_strings(
            image.base(),
            image.bytes(),
            views(segments@),
            segments@.len() as int,
            options.min_len as int,
            pattern_of(compiled),
            names_of(options.only_sections),
            names_of(options.skip_sections),
        ),
{
    let ghost pattern = pattern_of(compiled);
    let ghost only = names_of(options.only_sections);
    let ghost skip = names_of(options.skip_sections);
    let ghost min_len = options.min_len as int;
    let mut strings: Vec<ParsedString> = Vec::new();
    let mut k: usize = 0;
    while k < segments.len()
        invariant
            k <= segments@.len(),
            pattern == pattern_of(compiled),
            only == names_of(options.only_sections),
            skip == names_of(options.skip_sections),
            min_len == options.min_len,
            views(strings@) == spec_collect_strings(
                image.base(),
                image.bytes(),
                views(segments@),
                k as int,
                min_len,
                pattern,
                only,
                skip,
            ),
        decreases segments@.len() - k,
    {
        let segment = &segments[k];
        let ghost before = views(strings@);
        let mut j: usize = 0;
        while j < segment.sections.len()
            invariant
                j <= segment.sections@.len(),
                pattern == pattern_of(compiled),
                only == names_of(options.only_sections),
                skip == names_of(options.skip_sections),
                min_len == options.min_len,
                views(strings@) == before + spec_segment_strings(
                    image.base(),
                    image.bytes(),
                    segment@,
                    j as int,
                    min_len,
                    pattern,
                    only,
                    skip,
                ),
            decreases segment.sections@.len() - j,
        {
            let section = &segment.sections[j];
            if section_wanted(section, options) {
                if let Some(bytes) = image.read_section(section) {
                    let found = match compiled {
                        Some(pattern) => extract_matching_strings(bytes, pattern),
                        None => extract_strings(bytes, options.min_len),
                    };
                    tag_strings(&mut strings, &found, &segment.segname, &section.sectname);
                }
            }
            j += 1;
        }
        k += 1;
    }
    strings
}

/// Collects the strings of an image. The pattern of `options`, where there
/// is one, is compiled first; one that does not compile is an error, and
/// without a pattern there is none.
pub fn collect_strings(segments: &[ParsedSegment], image: &MachOMemoryImage, options: &StringOptions) -> (r:
    Result<Vec<ParsedString>, PatternError>)
    ensures
        r is Ok ==> views(r->Ok_0@) == spec_collect_strings(
            image.base(),
            image.bytes(),
            views(segments@),
            segments@.len() as int,
            options.min_len as int,
            text_of(options.pattern),
            names_of(options.only_sections),
            names_of(options.skip_sections),
        ),
        options.pattern is None ==> r is Ok,
{
    match &options.pattern {
        Some(pattern) => match CompiledPattern::new(pattern.as_str()) {
            Ok(compiled) => Ok(collect_strings_with(segments, image, options, Some(&compiled))),
            Err(e) => Err(e),
        },
        None => Ok(collect_strings_with(segments, image, options, None)),
    }
}

/// Whether a section is to be searched for strings.
fn section_wanted(section: &ParsedSection, options: &StringOptions) -> (wanted: bool)
    ensures
        wanted == section_is_searched(
            section@,
            names_of(options.only_sections),
            names_of(options.skip_sections),
        ),
{
    if section.kind != SectionKind::CString || section.size == 0 {
        return false;
    }
    let name = byte_array_to_string(&section.sectname);
    if let Some(skip) = &options.skip_sections {
        if name_is_listed(skip, &name) {
            return false;
        }
    }
    if let Some(only) = &options.only_sections {
        if !name_is_listed(only, &name) {
            return false;
        }
    }
    true
}

/// What the load commands of an image say, decoded: its segments, the
/// libraries it depends on, its run paths, and where its symbol tables lie.
#[derive(Debug)]
pub struct DecodedCommands {
    pub segments: Vec<ParsedSegment>,
    pub dylibs: Vec<ParsedDylib>,
    pub rpaths: Vec<ParsedRPath>,
    pub symtab: Option<SymtabCommand>,
    pub dysymtab: Option<DYSymtabCommand>,
}

/// What decoded load commands hold.
pub struct CommandsModel {
    pub segments: Seq<SegmentModel>,
    pub dylibs: Seq<DylibModel>,
    pub rpaths: Seq<RPathModel>,
    pub symtab: Option<SymtabCommand>,
    pub dysymtab: Option<DYSymtabCommand>,
}

impl View for DecodedCommands {
    type V = CommandsModel;

    open spec fn view(&self) -> CommandsModel {
        CommandsModel {
            segments: views(self.segments@),
            dylibs: views(self.dylibs@),
            rpaths: views(self.rpaths@),
            symtab: self.symtab,
            dysymtab: self.dysymtab,
        }
    }
}

/// The opcode of a command without the flag `LC_REQ_DYLD`.
pub open spec fn base_opcode(cmd: u32) -> u32 {
    cmd & !constants::LC_REQ_DYLD
}

/// Whether an opcode is one of the six that name a library.
pub open spec fn is_dylib_opcode(opcode: u32) -> bool {
    opcode == constants::LC_ID_DYLIB || opcode == constants::LC_LOAD_DYLIB || opcode
        == constants::LC_LOAD_WEAK_DYLIB || opcode == constants::LC_REEXPORT_DYLIB || opcode
        == constants::LC_LAZY_LOAD_DYLIB || opcode == constants::LC_LOAD_UPWARD_DYLIB
}

/// What is known after one more command: a library, a run path or a
/// segment is added to its list, a symbol table command takes the place of
/// an earlier one, and any other command changes nothing. A command that
/// cannot be decoded is an error.
pub open spec fn spec_decode_command(
    known: CommandsModel,
    data: Seq<u8>,
    lc: LoadCommand,
    is_be: bool,
) -> Result<CommandsModel, DecodeError> {
    let opcode = base_opcode(lc.cmd);
    if is_dylib_opcode(opcode) {
        match spec_parse_dylib(data, lc, is_be) {
            Ok(dylib) => Ok(CommandsModel { dylibs: known.dylibs.push(dylib), ..known }),
            Err(e) => Err(e),
        }
    } else if opcode == constants::LC_RPATH {
        match spec_parse_rpath(data, lc, is_be) {
            Ok(rpath) => Ok(CommandsModel { rpaths: known.rpaths.push(rpath), ..known }),
            Err(e) => Err(e),
        }
    } else if opcode == constants::LC_SEGMENT_64 || opcode == constants::LC_SEGMENT {
        match spec_parse_segment(data, lc.offset as int, is_be, opcode == constants::LC_SEGMENT_64) {
            Ok(segment) => Ok(CommandsModel { segments: known.segments.push(segment), ..known }),
            Err(e) => Err(e),
        }
    } else if opcode == constants::LC_SYMTAB {
        match spec_parse_symtab_command(data, lc, is_be) {
            Ok(symtab) => Ok(CommandsModel { symtab: Some(symtab), ..known }),
            Err(e) => Err(e),
        }
    } else if opcode == constants::LC_DYSYMTAB {
        match spec_parse_dysymtab_command(data, lc, is_be) {
            Ok(dysymtab) => Ok(CommandsModel { dysymtab: Some(dysymtab), ..known }),
            Err(e) => Err(e),
        }
    } else {
        Ok(known)
    }
}

/// What is known after the first `n` commands; the error of the first
/// command that cannot be decoded.
pub open spec fn spec_decode_commands(data: Seq<u8>, commands: Seq<LoadCommand>, n: int, is_be: bool) -> Result<
    CommandsModel,
    DecodeError,
>
    decreases n,
{
    if n <= 0 {
        Ok(
            CommandsModel {
                segments: Seq::empty(),
                dylibs: Seq::empty(),
                rpaths: Seq::empty(),
                symtab: None,
                dysymtab: None,
            },
        )
    } else {
        match spec_decode_commands(data, commands, n - 1, is_be) {
            Ok(known) => spec_decode_command(known, data, commands[n - 1], is_be),
            Err(e) => Err(e),
        }
    }
}

/// Decodes one command into what is known so far.
fn decode_command(known: &mut DecodedCommands, data: &[u8], lc: &LoadCommand, is_be: bool) -> (r: Result<
    (),
    DecodeError,
>)
    ensures
        (match spec_decode_command(old(known)@, data@, *lc, is_be) {
            Ok(after) => r is Ok && final(known)@ == after,
            Err(e) => r == Err::<(), DecodeError>(e),
        }),
{
    let ghost before = known@;
    let opcode = lc.cmd & !constants::LC_REQ_DYLD;
    if opcode == constants::LC_ID_DYLIB || opcode == constants::LC_LOAD_DYLIB || opcode
        == constants::LC_LOAD_WEAK_DYLIB || opcode == constants::LC_REEXPORT_DYLIB || opcode
        == constants::LC_LAZY_LOAD_DYLIB || opcode == constants::LC_LOAD_UPWARD_DYLIB {
        let dylib = parse_dylib(data, lc, is_be)?;
        known.dylibs.push(dylib);
        assert(views(known.dylibs@) =~= before.dylibs.push(dylib@));
    } else if opcode == constants::LC_RPATH {
        let rpath = parse_rpath(data, lc, is_be)?;
        known.rpaths.push(rpath);
        assert(views(known.rpaths@) =~= before.rpaths.push(rpath@));
    } else if opcode == constants::LC_SEGMENT_64 || opcode == constants::LC_SEGMENT {
        if lc.offset > data.len() as u64 {
            return Err(DecodeError::new(ErrorKind::TruncatedRecord, Stage::Segment, 0, lc.offset));
        }
        let segment = if opcode == constants::LC_SEGMENT_64 {
            parse_segment_64(data, lc.offset as usize, is_be)?
        } else {
            parse_segment_32(data, lc.offset as usize, is_be)?
        };
        known.segments.push(segment);
        assert(views(known.segments@) =~= before.segments.push(segment@));
    } else if opcode == constants::LC_SYMTAB {
        known.symtab = Some(parse_symtab_command(data, lc, is_be)?);
    } else if opcode == constants::LC_DYSYMTAB {
        known.dysymtab = Some(parse_dysymtab_command(data, lc, is_be)?);
    }
    Ok(())
}

/// Decodes the load commands of an image, one after the other. The first
/// command that cannot be decoded ends the decoding with its error.
pub fn decode_commands(data: &[u8], commands: &[LoadCommand], is_be: bool) -> (r: Result<
    DecodedCommands,
    DecodeError,
>)
    ensures
        result_is(r, spec_decode_commands(data@, commands@, commands@.len() as int, is_be)),
{
    let mut known = DecodedCommands {
        segments: Vec::new(),
        dylibs: Vec::new(),
        rpaths: Vec::new(),
        symtab: None,
        dysymtab: None,
    };
    assert(views(known.segments@) =~= Seq::<SegmentModel>::empty());
    assert(views(known.dylibs@) =~= Seq::<DylibModel>::empty());
    assert(views(known.rpaths@) =~= Seq::<RPathModel>::empty());
    let mut i: usize = 0;
    while i < commands.len()
        invariant
            i <= commands@.len(),
            spec_decode_commands(data@, commands@, i as int, is_be) == Ok::<CommandsModel, DecodeError>(
                known@,
            ),
        decreases commands@.len() - i,
    {
        match decode_command(&mut known, data, &commands[i], is_be) {
            Ok(()) => {},
            Err(e) => {
                proof {
                    lemma_decode_error_stays(data@, commands@, i + 1, commands@.len() as int, is_be);
                }
                return Err(e);
            },
        }
        i += 1;
    }
    Ok(known)
}

/// Once a command could not be decoded, the commands behind it are not
/// looked at.
proof fn lemma_decode_error_stays(data: Seq<u8>, commands: Seq<LoadCommand>, n: int, m: int, is_be: bool)
    requires
        n <= m,
        spec_decode_commands(data, commands, n, is_be) is Err,
    ensures
        spec_decode_commands(data, commands, m, is_be) == spec_decode_commands(data, commands, n, is_be),
    decreases m - n,
{
    if n < m {
        lemma_decode_error_stays(data, commands, n, m - 1, is_be);
    }
}

/// An image as it is decoded from the file: header, load commands, what
/// the commands say, the symbols as the symbol table gives them, and the
/// indirect symbol table where the image has one.
#[derive(Debug)]
pub struct DecodedSlice {
    pub header: ParsedMachOHeader,
    pub load_commands: Vec<LoadCommand>,
    pub commands: DecodedCommands,
    pub symbols: Vec<ParsedSymbol>,
    pub indirect_symbols: Option<Vec<u32>>,
}

/// What a decoded image holds.
pub struct SliceModel {
    pub header: ParsedMachOHeader,
    pub load_commands: Seq<LoadCommand>,
    pub commands: CommandsModel,
    pub symbols: Seq<SymbolModel>,
    pub indirect_symbols: Option<Seq<u32>>,
}

/// The entries of an optional table.
pub open spec fn entries_of(table: Option<Vec<u32>>) -> Option<Seq<u32>> {
    match table {
        Some(table) => Some(table@),
        None => None,
    }
}

impl View for DecodedSlice {
    type V = SliceModel;

    open spec fn view(&self) -> SliceModel {
        SliceModel {
            header: self.header,
            load_commands: self.load_commands@,
            commands: self.commands@,
            symbols: views(self.symbols@),
            indirect_symbols: entries_of(self.indirect_symbols),
        }
    }
}

/// The word size that a kind of image stands for.
pub open spec fn word_size_of(kind: MachOKind) -> u32 {
    if kind.spec_is_64() {
        64
    } else {
        32
    }
}

/// The symbols of an image before they are resolved: those of its symbol
/// table, or none where it has no symbol table.
pub open spec fn spec_slice_symbols(
    data: Seq<u8>,
    slice_offset: u64,
    symtab: Option<SymtabCommand>,
    kind: MachOKind,
) -> Result<Seq<SymbolModel>, DecodeError> {
    match symtab {
        Some(symtab) => spec_read_symbols(data, slice_offset, symtab, kind.spec_is_64(), kind.spec_is_be()),
        None => Ok(Seq::empty()),
    }
}

/// The indirect symbol table of an image, where it has a dynamic symbol
/// table command.
pub open spec fn spec_slice_indirect_symbols(
    data: Seq<u8>,
    slice_offset: u64,
    dysymtab: Option<DYSymtabCommand>,
    kind: MachOKind,
) -> Result<Option<Seq<u32>>, DecodeError> {
    match dysymtab {
        Some(dysymtab) => match spec_read_indirect_symbols(data, slice_offset, dysymtab, kind.spec_is_be()) {
            Ok(table) => Ok(Some(table)),
            Err(e) => Err(e),
        },
        None => Ok(None),
    }
}

/// The load commands of the image whose header is `header`. They start
/// right behind the header, at a place that 32 bits can hold, and their
/// sizes must add up to the `sizeofcmds` of the header.
pub open spec fn spec_slice_commands(data: Seq<u8>, slice: MachOSlice, header: ParsedMachOHeader) -> Result<
    Seq<LoadCommand>,
    DecodeError,
> {
    let kind = header.kind;
    let first = slice.offset + kind.header_size();
    if first > u32::MAX {
        Err(
            DecodeError::at(
                ErrorKind::OutOfBoundsReference,
                Stage::LoadCommand,
                0,
                slice.offset as int,
            ),
        )
    } else {
        match spec_read_load_commands(
            data,
            first as u32,
            header.header.spec_ncmds(),
            word_size_of(kind),
            kind.spec_is_be(),
        ) {
            Err(e) => Err(e),
            Ok(load_commands) => if total_cmdsize(load_commands) == header.header.spec_sizeofcmds() {
                Ok(load_commands)
            } else {
                Err(
                    DecodeError::at(
                        ErrorKind::OutOfBoundsReference,
                        Stage::MachHeader,
                        0,
                        slice.offset as int,
                    ),
                )
            },
        }
    }
}

/// The image whose header is `header`, decoded from its load commands on.
pub open spec fn spec_decode_body(data: Seq<u8>, slice: MachOSlice, header: ParsedMachOHeader) -> Result<
    SliceModel,
    DecodeError,
> {
    let kind = header.kind;
    match spec_slice_commands(data, slice, header) {
        Err(e) => Err(e),
        Ok(load_commands) => match spec_decode_commands(
            data,
            load_commands,
            load_commands.len() as int,
            kind.spec_is_be(),
        ) {
            Err(e) => Err(e),
            Ok(commands) => match spec_slice_symbols(data, slice.offset, commands.symtab, kind) {
                Err(e) => Err(e),
                Ok(symbols) => match spec_slice_indirect_symbols(
                    data,
                    slice.offset,
                    commands.dysymtab,
                    kind,
                ) {
                    Err(e) => Err(e),
                    Ok(indirect_symbols) => Ok(
                        SliceModel { header, load_commands, commands, symbols, indirect_symbols },
                    ),
                },
            },
        },
    }
}

/// What `decode_slice` returns: the first error on the way from the header
/// to the indirect symbol table, or the decoded image.
pub open spec fn spec_decode_slice(data: Seq<u8>, slice: MachOSlice) -> Result<SliceModel, DecodeError> {
    match spec_read_thin_header(data, slice) {
        Err(e) => Err(e),
        Ok(header) => spec_decode_body(data, slice, header),
    }
}

/// Reads the symbols of an image, where it has a symbol table.
fn slice_symbols(data: &[u8], slice_offset: u64, symtab: &Option<SymtabCommand>, kind: MachOKind) -> (r:
    Result<Vec<ParsedSymbol>, DecodeError>)
    ensures
        views_result_is(r, spec_slice_symbols(data@, slice_offset, *symtab, kind)),
{
    match symtab {
        Some(symtab) => read_symbols(data, slice_offset, symtab, kind.is_64(), kind.is_be()),
        None => {
            let symbols: Vec<ParsedSymbol> = Vec::new();
            assert(views(symbols@) =~= Seq::<SymbolModel>::empty());
            Ok(symbols)
        },
    }
}

/// Reads the indirect symbol table of an image, where it has one.
fn slice_indirect_symbols(
    data: &[u8],
    slice_offset: u64,
    dysymtab: &Option<DYSymtabCommand>,
    kind: MachOKind,
) -> (r: Result<Option<Vec<u32>>, DecodeError>)
    ensures
        (match spec_slice_indirect_symbols(data@, slice_offset, *dysymtab, kind) {
            Ok(table) => r is Ok && entries_of(r->Ok_0) == table,
            Err(e) => r == Err::<Option<Vec<u32>>, DecodeError>(e),
        }),
{
    match dysymtab {
        Some(dysymtab) => match read_indirect_symbols(data, slice_offset, dysymtab, kind.is_be()) {
            Ok(table) => Ok(Some(table)),
            Err(e) => Err(e),
        },
        None => Ok(None),
    }
}

/// Reads the load commands of the image whose header is `header`, and
/// holds the sum of their sizes against the `sizeofcmds` of the header.
pub fn read_slice_commands(data: &[u8], slice: &MachOSlice, header: &ParsedMachOHeader) -> (r: Result<
    Vec<LoadCommand>,
    DecodeError,
>)
    ensures
        vec_result_is(r, spec_slice_commands(data@, *slice, *header)),
        r is Ok ==> total_cmdsize(r->Ok_0@) == header.header.spec_sizeofcmds(),
        r is Ok ==> r->Ok_0@.len() == header.header.spec_ncmds(),
        r is Ok ==> forall|i: int|
            0 <= i < r->Ok_0@.len() ==> (#[trigger] r->Ok_0@[i]).wf(
                data@.len() as int,
                word_size_of(header.kind),
            ),
{
    let kind = header.kind;
    let header_size: u64 = if kind.is_64() {
        32
    } else {
        28
    };
    let word_size: u32 = if kind.is_64() {
        64
    } else {
        32
    };
    if slice.offset > u32::MAX as u64 - header_size {
        return Err(
            DecodeError::new(ErrorKind::OutOfBoundsReference, Stage::LoadCommand, 0, slice.offset),
        );
    }
    let first: u64 = slice.offset + header_size;
    let load_commands = read_load_commands(
        data,
        first as u32,
        header.header.ncmds(),
        word_size,
        kind.is_be(),
    )?;
    if !sizes_add_up_to(load_commands.as_slice(), header.header.sizeofcmds()) {
        return Err(
            DecodeError::new(ErrorKind::OutOfBoundsReference, Stage::MachHeader, 0, slice.offset),
        );
    }
    Ok(load_commands)
}

/// Decodes what follows the header of an image.
fn decode_body(data: &[u8], slice: &MachOSlice, header: ParsedMachOHeader) -> (r: Result<
    DecodedSlice,
    DecodeError,
>)
    requires
        slice.offset + header.kind.header_size() <= data@.len(),
    ensures
        result_is(r, spec_decode_body(data@, *slice, header)),
{
    let kind = header.kind;
    let is_be = kind.is_be();
    let _ = data.len();
    let load_commands = match read_slice_commands(data, slice, &header) {
        Ok(load_commands) => load_commands,
        Err(e) => {
            return Err(e);
        },
    };
    let commands = match decode_commands(data, load_commands.as_slice(), is_be) {
        Ok(commands) => commands,
        Err(e) => {
            return Err(e);
        },
    };
    let symbols = match slice_symbols(data, slice.offset, &commands.symtab, kind) {
        Ok(symbols) => symbols,
        Err(e) => {
            return Err(e);
        },
    };
    let indirect_symbols = match slice_indirect_symbols(data, slice.offset, &commands.dysymtab, kind) {
        Ok(table) => table,
        Err(e) => {
            return Err(e);
        },
    };
    Ok(DecodedSlice { header, load_commands, commands, symbols, indirect_symbols })
}

/// Decodes one image of the file: its header, its load commands, the
/// segments, libraries, run paths and symbol tables that the commands
/// describe, and its symbols. The sizes of the commands must add up to the
/// `sizeofcmds` of the header. An error anywhere ends the decoding of this
/// image; other images of the same file are not touched by it.
pub fn decode_slice(data: &[u8], slice: &MachOSlice) -> (r: Result<DecodedSlice, DecodeError>)
    ensures
        result_is(r, spec_decode_slice(data@, *slice)),
        r is Ok ==> total_cmdsize(r->Ok_0.load_commands@) == r->Ok_0.header.header.spec_sizeofcmds(),
{
    match read_thin_header(data, slice) {
        Ok(header) => decode_body(data, slice, header),
        Err(e) => Err(e),
    }
}

/// The symbols that are no debugging entries, in their order.
pub open spec fn spec_without_debug(symbols: Seq<SymbolModel>) -> Seq<SymbolModel>
    decreases symbols.len(),
{
    if symbols.len() == 0 {
        Seq::empty()
    } else if symbols.last().is_debug {
        spec_without_debug(symbols.drop_last())
    } else {
        spec_without_debug(symbols.drop_last()).push(symbols.last())
    }
}

/// Leaves out the symbols that are debugging entries.
pub fn without_debug_symbols(symbols: Vec<ParsedSymbol>) -> (kept: Vec<ParsedSymbol>)
    ensures
        views(kept@) == spec_without_debug(views(symbols@)),
{
    let ghost all = views(symbols@);
    let mut kept: Vec<ParsedSymbol> = Vec::new();
    for symbol in it: symbols
        invariant
            views(it.seq()) == all,
            views(kept@) == spec_without_debug(all.take(it.index() as int)),
    {
        proof {
            assert(all.take(it.index() + 1).drop_last() =~= all.take(it.index() as int));
        }
        if !symbol.is_debug {
            kept.push(symbol);
        }
    }
    proof {
        assert(all.take(all.len() as int) =~= all);
    }
    kept
}

/// The first `max` items where a limit is given and there are more, and
/// all items otherwise.
pub open spec fn spec_limit<T>(items: Seq<T>, max: Option<usize>) -> Seq<T> {
    match max {
        Some(max) => if max < items.len() {
            items.take(max as int)
        } else {
            items
        },
        None => items,
    }
}

/// Cuts a list down to at most `max` items, where a limit is given.
pub fn limit<T>(items: &mut Vec<T>, max: Option<usize>)
    ensures
        final(items)@ == spec_limit(old(items)@, max),
{
    if let Some(max) = max {
        if max < items.len() {
            items.truncate(max);
        }
    }
}

/// What is asked of the analysis of an image.
#[derive(Debug, Clone)]
pub struct AnalysisOptions {
    pub strings: StringOptions,
    /// The most strings to keep.
    pub max_strings: Option<usize>,
    /// The most symbols to keep.
    pub max_symbols: Option<usize>,
    /// Whether debugging entries are kept among the symbols.
    pub include_debug_symbols: bool,
}

/// Why an image could not be analysed.
#[derive(Debug)]
pub enum AnalysisError {
    /// The image could not be decoded.
    Decode(DecodeError),
    /// The pattern for the strings is not one that can be used.
    Pattern(PatternError),
}

/// One image, analysed.
#[derive(Debug)]
pub struct SliceAnalysis {
    pub header: ParsedMachOHeader,
    pub load_commands: Vec<LoadCommand>,
    pub segments: Vec<ParsedSegment>,
    pub dylibs: Vec<ParsedDylib>,
    pub rpaths: Vec<ParsedRPath>,
    /// The symbols, resolved and named.
    pub symbols: Vec<ParsedSymbol>,
    pub strings: Vec<ParsedString>,
}

/// What an analysed image holds.
pub struct AnalysisModel {
    pub header: ParsedMachOHeader,
    pub load_commands: Seq<LoadCommand>,
    pub segments: Seq<SegmentModel>,
    pub dylibs: Seq<DylibModel>,
    pub rpaths: Seq<RPathModel>,
    pub symbols: Seq<SymbolModel>,
    pub strings: Seq<StringModel>,
}

impl View for SliceAnalysis {
    type V = AnalysisModel;

    open spec fn view(&self) -> AnalysisModel {
        AnalysisModel {
            header: self.header,
            load_commands: self.load_commands@,
            segments: views(self.segments@),
            dylibs: views(self.dylibs@),
            rpaths: views(self.rpaths@),
            symbols: views(self.symbols@),
            strings: views(self.strings@),
        }
    }
}

/// The symbols of a decoded image as the analysis shows them. Where the
/// image has an indirect symbol table, the sections of all segments are
/// looked at in order and bind the symbols; then each symbol is given the
/// names of its section; then debugging entries are left out unless they
/// are asked for; then the limit applies.
pub open spec fn spec_shown_symbols(decoded: SliceModel, include_debug: bool, max: Option<usize>) -> Seq<
    SymbolModel,
> {
    let segments = decoded.commands.segments;
    let sections = spec_all_sections(segments, segments.len() as int);
    let bound = match decoded.indirect_symbols {
        Some(table) => spec_resolve_symbols(decoded.symbols, table, sections, sections.len() as int),
        None => decoded.symbols,
    };
    let named = spec_attach_section_names(bound, segments);
    spec_limit(
        if include_debug {
            named
        } else {
            spec_without_debug(named)
        },
        max,
    )
}

/// The strings of a decoded image as the analysis shows them: collected
/// from the image of its segments in virtual memory, up to the limit.
pub open spec fn spec_shown_strings(
    data: Seq<u8>,
    slice_offset: u64,
    segments: Seq<SegmentModel>,
    options: AnalysisOptions,
) -> Seq<StringModel> {
    spec_limit(
        spec_collect_strings(
            spec_min_addr(segments, segments.len() as int),
            spec_image(segments, data, slice_offset),
            segments,
            segments.len() as int,
            options.strings.min_len as int,
            text_of(options.strings.pattern),
            names_of(options.strings.only_sections),
            names_of(options.strings.skip_sections),
        ),
        options.max_strings,
    )
}

/// The analysis of a decoded image.
pub open spec fn spec_analysis(data: Seq<u8>, slice_offset: u64, decoded: SliceModel, options: AnalysisOptions) -> AnalysisModel {
    AnalysisModel {
        header: decoded.header,
        load_commands: decoded.load_commands,
        segments: decoded.commands.segments,
        dylibs: decoded.commands.dylibs,
        rpaths: decoded.commands.rpaths,
        symbols: spec_shown_symbols(decoded, options.include_debug_symbols, options.max_symbols),
        strings: spec_shown_strings(data, slice_offset, decoded.commands.segments, options),
    }
}

/// Resolves, names, filters and limits the symbols of a decoded image.
pub fn shown_symbols(
    symbols: Vec<ParsedSymbol>,
    indirect_symbols: &Option<Vec<u32>>,
    segments: &[ParsedSegment],
    include_debug: bool,
    max: Option<usize>,
) -> (shown: Vec<ParsedSymbol>)
    ensures
        views(shown@) == ({
            let segs = views(segments@);
            let sections = spec_all_sections(segs, segs.len() as int);
            let bound = match entries_of(*indirect_symbols) {
                Some(table) => spec_resolve_symbols(views(symbols@), table, sections, sections.len() as int),
                None => views(symbols@),
            };
            let named = spec_attach_section_names(bound, segs);
            spec_limit(
                if include_debug {
                    named
                } else {
                    spec_without_debug(named)
                },
                max,
            )
        }),
{
    let mut symbols = symbols;
    if let Some(table) = indirect_symbols {
        let sections = all_sections(segments);
        resolve_symbols(&mut symbols, table.as_slice(), sections.as_slice());
    }
    attach_section_names(&mut symbols, segments);
    let mut shown = if include_debug {
        symbols
    } else {
        without_debug_symbols(symbols)
    };
    limit(&mut shown, max);
    shown
}

/// Analyses one image of the file. The image is decoded; its strings are
/// collected from the image of its segments in virtual memory; its symbols
/// are resolved, named, filtered and limited. An image that cannot be
/// decoded is an error, and so is a pattern that cannot be used.
pub fn analyze_slice(data: &[u8], slice: &MachOSlice, options: &AnalysisOptions) -> (r: Result<
    SliceAnalysis,
    AnalysisError,
>)
    ensures
        spec_decode_slice(data@, *slice) is Err ==> r is Err && r->Err_0 is Decode && r->Err_0->Decode_0
            == spec_decode_slice(data@, *slice)->Err_0,
        spec_decode_slice(data@, *slice) is Ok ==> (r is Err ==> r->Err_0 is Pattern),
        spec_decode_slice(data@, *slice) is Ok && options.strings.pattern is None ==> r is Ok,
        r is Ok ==> spec_decode_slice(data@, *slice) is Ok && r->Ok_0@ == spec_analysis(
            data@,
            slice.offset,
            spec_decode_slice(data@, *slice)->Ok_0,
            *options,
        ),
        r is Ok ==> total_cmdsize(r->Ok_0.load_commands@) == r->Ok_0.header.header.spec_sizeofcmds(),
{
    let decoded = match decode_slice(data, slice) {
        Ok(decoded) => decoded,
        Err(e) => {
            return Err(AnalysisError::Decode(e));
        },
    };
    let DecodedSlice { header, load_commands, commands, symbols, indirect_symbols } = decoded;
    let DecodedCommands { segments, dylibs, rpaths, symtab: _, dysymtab: _ } = commands;
    let image = MachOMemoryImage::new(segments.as_slice(), data, slice.offset);
    let mut strings = match collect_strings(segments.as_slice(), &image, &options.strings) {
        Ok(strings) => strings,
        Err(e) => {
            return Err(AnalysisError::Pattern(e));
        },
    };
    let ghost collected = strings@;
    limit(&mut strings, options.max_strings);
    proof {
        assert(views(strings@) =~= spec_limit(views(collected), options.max_strings));
    }
    let symbols = shown_symbols(
        symbols,
        &indirect_symbols,
        segments.as_slice(),
        options.include_debug_symbols,
        options.max_symbols,
    );
    Ok(SliceAnalysis { header, load_commands, segments, dylibs, rpaths, symbols, strings })
}

/// The strings whose text takes at least `min_len` bytes, in their order.
pub open spec fn spec_at_least(strings: Seq<StringModel>, min_len: int) -> Seq<StringModel>
    decreases strings.len(),
{
    if strings.len() == 0 {
        Seq::empty()
    } else if encode_utf8(strings.last().value).len() >= min_len {
        spec_at_least(strings.drop_last(), min_len).push(strings.last())
    } else {
        spec_at_least(strings.drop_last(), min_len)
    }
}

/// Picks the strings that a listing shows: those whose text, as it is
/// shown, takes at least `min_len` bytes, and of these no more than
/// `max_count`.
pub fn strings_to_print(strings: &[ParsedString], min_len: usize, max_count: Option<usize>) -> (shown: Vec<
    ParsedString,
>)
    ensures
        views(shown@) == spec_limit(spec_at_least(views(strings@), min_len as int), max_count),
{
    let ghost all = views(strings@);
    let mut shown: Vec<ParsedString> = Vec::new();
    let mut i: usize = 0;
    while i < strings.len()
        invariant
            i <= strings@.len(),
            all == views(strings@),
            views(shown@) == spec_at_least(all.take(i as int), min_len as int),
        decreases strings@.len() - i,
    {
        proof {
            assert(all.take(i + 1).drop_last() =~= all.take(i as int));
        }
        if strings[i].value.as_str().as_bytes().len() >= min_len {
            let copy = ParsedString {
                value: strings[i].value.clone(),
                segname: strings[i].segname,
                sectname: strings[i].sectname,
            };
            shown.push(copy);
        }
        i += 1;
    }
    proof {
        assert(all.take(all.len() as int) =~= all);
    }
    limit(&mut shown, max_count);
    shown
}

/// Of every image that is decoded, the sizes of the load commands add up
/// to the `sizeofcmds` of its header, there are as many commands as the
/// header counts, and each size is a multiple of four in a 32-bit image
/// and of eight in a 64-bit one.
pub proof fn lemma_decoded_commands_fill_sizeofcmds(data: Seq<u8>, slice: MachOSlice)
    requires
        data.len() <= u64::MAX,
        spec_decode_slice(data, slice) is Ok,
    ensures
        ({
            let decoded = spec_decode_slice(data, slice)->Ok_0;
            let cmds = decoded.load_commands;
            &&& total_cmdsize(cmds) == decoded.header.header.spec_sizeofcmds()
            &&& cmds.len() == decoded.header.header.spec_ncmds()
            &&& !decoded.header.kind.spec_is_64() ==> forall|i: int|
                0 <= i < cmds.len() ==> (#[trigger] cmds[i]).cmdsize % 4 == 0
            &&& decoded.header.kind.spec_is_64() ==> forall|i: int|
                0 <= i < cmds.len() ==> (#[trigger] cmds[i]).cmdsize % 8 == 0
        }),
{
    let header = spec_read_thin_header(data, slice)->Ok_0;
    let kind = header.kind;
    let first = slice.offset + kind.header_size();
    lemma_cmdsizes_are_aligned(
        data,
        first as u32,
        header.header.spec_ncmds(),
        word_size_of(kind),
        kind.spec_is_be(),
    );
    crate::macho::load_commands::lemma_load_commands_contiguous(
        data,
        first as u32,
        header.header.spec_ncmds(),
        word_size_of(kind),
        kind.spec_is_be(),
    );
}

} // verus!
