//! The symbol table: its entries, the names they point at, and the strings
//! that sections of string literals hold.

use vstd::prelude::*;
use vstd::slice::slice_subrange;
use vstd::utf8::{decode_utf8, valid_utf8};
use crate::macho::constants;
use crate::macho::text::{
    pattern_is_match, regex_matches, str_from_utf8, string_from_utf8_lossy, utf8_lossy,
    CompiledPattern, PatternError,
};
use crate::macho::error::{
    vec_result_is, views, views_result_is, DecodeError, ErrorKind, Stage,
};
use crate::macho::load_commands::LoadCommand;
use crate::reporting::symtab::{StringReport, StringReportModel, SymbolReport, SymbolReportModel};
use crate::macho::utils::{
    c_str_len, find_nul, has_nul, hex_digit, hex_text, lemma_c_str_len, padded_name_text,
    read_u16, read_u32,
    read_u64, spec_hex_digit, spec_hex_text, spec_padded_name_text, u16_at, u32_at, u64_at,
    until_nul,
};

verus! {

/// Whether a character is a control character: the code points up to
/// U+001F and those from U+007F to U+009F.
pub open spec fn spec_is_control(c: char) -> bool {
    c as u32 <= 0x1F || 0x7F <= c as u32 <= 0x9F
}

/// What stands for one character in escaped text: `\n`, `\r`, `\t` and
/// `\0` for line feed, carriage return, tab and NUL; `\x` and two
/// hexadecimal digits for any other control character; the character
/// itself otherwise.
pub open spec fn spec_escape_char(c: char) -> Seq<char> {
    if c == '\n' {
        seq!['\\', 'n']
    } else if c == '\r' {
        seq!['\\', 'r']
    } else if c == '\t' {
        seq!['\\', 't']
    } else if c == '\0' {
        seq!['\\', '0']
    } else if spec_is_control(c) {
        seq!['\\', 'x', spec_hex_digit((c as u32 / 16) as int), spec_hex_digit((c as u32 % 16) as int)]
    } else {
        seq![c]
    }
}

/// Escaped text: each character replaced by what stands for it.
pub open spec fn spec_escape(s: Seq<char>) -> Seq<char>
    decreases s.len(),
{
    if s.len() == 0 {
        Seq::empty()
    } else {
        spec_escape(s.drop_last()) + spec_escape_char(s.last())
    }
}

/// Makes text printable: control characters are written out as escapes.
pub fn escape_string(s: &str) -> (escaped: String)
    ensures
        escaped@ == spec_escape(s@),
{
    let mut escaped = String::new();
    for c in it: s.chars()
        invariant
            it.seq() == s@,
            escaped@ == spec_escape(s@.take(it.index() as int)),
    {
        proof {
            assert(s@.take(it.index() + 1).drop_last() =~= s@.take(it.index() as int));
        }
        let code: u32 = c as u32;
        if c == '\n' {
            escaped.push('\\');
            escaped.push('n');
        } else if c == '\r' {
            escaped.push('\\');
            escaped.push('r');
        } else if c == '\t' {
            escaped.push('\\');
            escaped.push('t');
        } else if c == '\0' {
            escaped.push('\\');
            escaped.push('0');
        } else if code <= 0x1F || (0x7F <= code && code <= 0x9F) {
            escaped.push('\\');
            escaped.push('x');
            escaped.push(hex_digit(code / 16));
            escaped.push(hex_digit(code % 16));
        } else {
            escaped.push(c);
        }
    }
    proof {
        assert(s@.take(s@.len() as int) =~= s@);
    }
    escaped
}

/// The strings of a section of string literals. Each run of bytes that a
/// NUL byte ends is a candidate; what follows the last NUL byte is none.
/// A run is kept where it has at least `min_len` bytes and is valid UTF-8,
/// and it is kept as escaped text.
pub open spec fn spec_extract_strings(data: Seq<u8>, min_len: int) -> Seq<Seq<char>>
    decreases data.len(),
{
    if !has_nul(data) {
        Seq::empty()
    } else {
        let run = until_nul(data);
        let rest = spec_extract_strings(data.skip(c_str_len(data) as int + 1), min_len);
        if run.len() >= min_len && valid_utf8(run) {
            seq![spec_escape(decode_utf8(run))] + rest
        } else {
            rest
        }
    }
}

/// Extracts the NUL-terminated strings of at least `min_len` bytes from the
/// bytes of a section.
pub fn extract_strings(section_data: &[u8], min_len: usize) -> (strings: Vec<String>)
    ensures
        views(strings@) == spec_extract_strings(section_data@, min_len as int),
{
    let mut strings: Vec<String> = Vec::new();
    let mut start: usize = 0;
    let len = section_data.len();
    proof {
        assert(section_data@.skip(0) =~= section_data@);
    }
    while start < len
        invariant
            start <= len == section_data@.len(),
            spec_extract_strings(section_data@, min_len as int) == views(strings@)
                + spec_extract_strings(section_data@.skip(start as int), min_len as int),
        decreases len - start,
    {
        let ghost tail = section_data@.skip(start as int);
        let n = find_nul(section_data, start, len);
        if start + n == len {
            return strings;
        }
        let run = slice_subrange(section_data, start, start + n);
        proof {
            assert(run@ =~= until_nul(tail));
            assert(tail.skip(n + 1) =~= section_data@.skip(start + n + 1));
        }
        if n >= min_len {
            if let Some(text) = str_from_utf8(run) {
                let escaped = escape_string(text);
                strings.push(escaped);
            }
        }
        start += n + 1;
    }
    strings
}

/// How `spec_extract_strings` reads a run that a NUL byte ends: the run is
/// taken off the front, and what follows the NUL byte is read in the same
/// way.
proof fn lemma_run_is_taken_off(run: Seq<u8>, rest: Seq<u8>)
    requires
        forall|i: int| 0 <= i < run.len() ==> run[i] != 0,
    ensures
        has_nul(run + seq![0u8] + rest),
        until_nul(run + seq![0u8] + rest) == run,
        (run + seq![0u8] + rest).skip(c_str_len(run + seq![0u8] + rest) as int + 1) == rest,
{
    let data = run + seq![0u8] + rest;
    lemma_c_str_len(data, run.len() as int);
}

/// A run of fewer than `min_len` bytes is no string: with a minimum of one
/// or more, the empty run between two NUL bytes is dropped.
pub proof fn lemma_short_run_is_dropped(run: Seq<u8>, rest: Seq<u8>, min_len: int)
    requires
        forall|i: int| 0 <= i < run.len() ==> run[i] != 0,
        run.len() < min_len,
    ensures
        spec_extract_strings(run + seq![0u8] + rest, min_len) == spec_extract_strings(rest, min_len),
{
    lemma_run_is_taken_off(run, rest);
}

/// A run that is not valid UTF-8 is no string.
pub proof fn lemma_invalid_run_is_dropped(run: Seq<u8>, rest: Seq<u8>, min_len: int)
    requires
        forall|i: int| 0 <= i < run.len() ==> run[i] != 0,
        !valid_utf8(run),
    ensures
        spec_extract_strings(run + seq![0u8] + rest, min_len) == spec_extract_strings(rest, min_len),
{
    lemma_run_is_taken_off(run, rest);
}

/// A run of at least `min_len` bytes that is valid UTF-8 is a string: its
/// text, escaped, comes before the strings of what follows.
pub proof fn lemma_valid_run_is_kept(run: Seq<u8>, rest: Seq<u8>, min_len: int)
    requires
        forall|i: int| 0 <= i < run.len() ==> run[i] != 0,
        run.len() >= min_len,
        valid_utf8(run),
    ensures
        spec_extract_strings(run + seq![0u8] + rest, min_len) == seq![spec_escape(decode_utf8(run))]
            + spec_extract_strings(rest, min_len),
{
    lemma_run_is_taken_off(run, rest);
}

/// Bytes that no NUL byte ends are no string.
pub proof fn lemma_unterminated_bytes_are_dropped(tail: Seq<u8>, min_len: int)
    requires
        forall|i: int| 0 <= i < tail.len() ==> tail[i] != 0,
    ensures
        spec_extract_strings(tail, min_len) == Seq::<Seq<char>>::empty(),
{
    lemma_c_str_len(tail, tail.len() as int);
}

/// The items whose flag is set, in their order. An item without a flag is
/// left out.
pub open spec fn spec_keep_flagged(items: Seq<Seq<char>>, keep: Seq<bool>) -> Seq<Seq<char>>
    decreases items.len(),
{
    if items.len() == 0 {
        Seq::empty()
    } else if items.len() <= keep.len() && keep[items.len() - 1] {
        spec_keep_flagged(items.drop_last(), keep).push(items.last())
    } else {
        spec_keep_flagged(items.drop_last(), keep)
    }
}

/// Keeps the strings whose flag is set, in their order.
pub fn keep_flagged(strings: &Vec<String>, keep: &Vec<bool>) -> (kept: Vec<String>)
    ensures
        views(kept@) == spec_keep_flagged(views(strings@), keep@),
{
    let mut kept: Vec<String> = Vec::new();
    let mut i: usize = 0;
    while i < strings.len()
        invariant
            i <= strings@.len(),
            views(kept@) == spec_keep_flagged(views(strings@).take(i as int), keep@),
        decreases strings@.len() - i,
    {
        proof {
            assert(views(strings@).take(i + 1).drop_last() =~= views(strings@).take(i as int));
        }
        if i < keep.len() && keep[i] {
            kept.push(strings[i].clone());
        }
        i += 1;
    }
    proof {
        assert(views(strings@).take(strings@.len() as int) =~= views(strings@));
    }
    kept
}

/// The strings of a section that a pattern matches: all NUL-terminated
/// strings of at least one byte are candidates.
pub open spec fn spec_extract_filtered_strings(data: Seq<u8>, pattern: Seq<char>) -> Seq<Seq<char>> {
    let all = spec_extract_strings(data, 1);
    spec_keep_flagged(all, Seq::new(all.len(), |i: int| regex_matches(pattern, all[i])))
}

/// Extracts the strings of a section that a compiled pattern matches.
pub fn extract_matching_strings(section_data: &[u8], pattern: &CompiledPattern) -> (strings: Vec<String>)
    ensures
        views(strings@) == spec_extract_filtered_strings(section_data@, pattern@),
{
    let strings = extract_strings(section_data, 1);
    let mut keep: Vec<bool> = Vec::new();
    let mut i: usize = 0;
    while i < strings.len()
        invariant
            i <= strings@.len(),
            keep@.len() == i,
            forall|k: int| 0 <= k < i ==> keep@[k] == regex_matches(pattern@, (#[trigger] strings@[k])@),
        decreases strings@.len() - i,
    {
        keep.push(pattern_is_match(pattern, strings[i].as_str()));
        i += 1;
    }
    proof {
        let all = views(strings@);
        assert(keep@ =~= Seq::new(all.len(), |i: int| regex_matches(pattern@, all[i])));
    }
    keep_flagged(&strings, &keep)
}

/// Extracts the strings of a section that match a regular expression. The
/// minimum length does not apply: a pattern may well match a short string.
/// A pattern that does not compile is an error.
pub fn extract_filtered_strings(section_data: &[u8], pattern: &str) -> (r: Result<
    Vec<String>,
    PatternError,
>)
    ensures
        r is Ok ==> views(r->Ok_0@) == spec_extract_filtered_strings(section_data@, pattern@),
{
    strings_for_pattern(section_data, CompiledPattern::new(pattern))
}

/// The strings of a section for a pattern as it came back from compiling:
/// those that the pattern matches where it compiled, and the error handed
/// on where it did not.
pub fn strings_for_pattern(section_data: &[u8], compiled: Result<CompiledPattern, PatternError>) -> (r:
    Result<Vec<String>, PatternError>)
    ensures
        compiled is Ok ==> r is Ok && views(r->Ok_0@) == spec_extract_filtered_strings(
            section_data@,
            compiled->Ok_0@,
        ),
        compiled is Err ==> r is Err && r->Err_0 == compiled->Err_0,
{
    match compiled {
        Ok(pattern) => Ok(extract_matching_strings(section_data, &pattern)),
        Err(e) => Err(e),
    }
}

/// A symbol table entry of a 32-bit image, 12 bytes in the file.
#[derive(Debug, Clone, Copy, PartialEq, Eq, Structural)]
pub struct NList32 {
    /// Where the name starts in the string table; 0 for no name.
    pub n_strx: u32,
    pub n_type: u8,
    /// The number of the section, counted from 1; 0 for none.
    pub n_sect: u8,
    pub n_desc: u16,
    pub n_value: u32,
}

/// A symbol table entry of a 64-bit image, 16 bytes in the file.
#[derive(Debug, Clone, Copy, PartialEq, Eq, Structural)]
pub struct NList64 {
    pub n_strx: u32,
    pub n_type: u8,
    pub n_sect: u8,
    pub n_desc: u16,
    pub n_value: u64,
}

/// The entry of a 32-bit image that starts at `off`.
pub open spec fn spec_nlist32_at(data: Seq<u8>, off: int, is_be: bool) -> NList32 {
    NList32 {
        n_strx: u32_at(data, off, is_be),
        n_type: data[off + 4],
        n_sect: data[off + 5],
        n_desc: u16_at(data, off + 6, is_be),
        n_value: u32_at(data, off + 8, is_be),
    }
}

/// The entry of a 64-bit image that starts at `off`.
pub open spec fn spec_nlist64_at(data: Seq<u8>, off: int, is_be: bool) -> NList64 {
    NList64 {
        n_strx: u32_at(data, off, is_be),
        n_type: data[off + 4],
        n_sect: data[off + 5],
        n_desc: u16_at(data, off + 6, is_be),
        n_value: u64_at(data, off + 8, is_be),
    }
}

pub open spec fn symbol_error(index: int, off: int) -> DecodeError {
    DecodeError::at(ErrorKind::TruncatedRecord, Stage::Symbol, index, off)
}

impl NList32 {
    pub const SIZE: usize = 12;

    /// Reads the entry at `offset`; an entry that does not lie inside the
    /// file is an error.
    pub fn parse(data: &[u8], offset: usize, is_be: bool) -> (r: Result<Self, DecodeError>)
        ensures
            offset + 12 <= data@.len() ==> r == Ok::<NList32, DecodeError>(
                spec_nlist32_at(data@, offset as int, is_be),
            ),
            offset + 12 > data@.len() ==> r == Err::<NList32, DecodeError>(symbol_error(0, offset as int)),
    {
        if offset > data.len() || data.len() - offset < 12 {
            return Err(DecodeError::new(ErrorKind::TruncatedRecord, Stage::Symbol, 0, offset as u64));
        }
        let n_strx = read_u32(data, offset, is_be);
        let n_type = data[offset + 4];
        let n_sect = data[offset + 5];
        let n_desc = read_u16(data, offset + 6, is_be);
        let n_value = read_u32(data, offset + 8, is_be);
        Ok(NList32 { n_strx, n_type, n_sect, n_desc, n_value })
    }
}

impl NList64 {
    pub const SIZE: usize = 16;

    /// Reads the entry at `offset`; an entry that does not lie inside the
    /// file is an error.
    pub fn parse(data: &[u8], offset: usize, is_be: bool) -> (r: Result<Self, DecodeError>)
        ensures
            offset + 16 <= data@.len() ==> r == Ok::<NList64, DecodeError>(
                spec_nlist64_at(data@, offset as int, is_be),
            ),
            offset + 16 > data@.len() ==> r == Err::<NList64, DecodeError>(symbol_error(0, offset as int)),
    {
        if offset > data.len() || data.len() - offset < 16 {
            return Err(DecodeError::new(ErrorKind::TruncatedRecord, Stage::Symbol, 0, offset as u64));
        }
        let n_strx = read_u32(data, offset, is_be);
        let n_type = data[offset + 4];
        let n_sect = data[offset + 5];
        let n_desc = read_u16(data, offset + 6, is_be);
        let n_value = read_u64(data, offset + 8, is_be);
        Ok(NList64 { n_strx, n_type, n_sect, n_desc, n_value })
    }
}

/// What kind of symbol an entry is. The first five kinds are read from the
/// type bits of `n_type`; `Lazy`, `Stub` and `Got` are given to undefined
/// external symbols once the indirect symbol table has shown where they are
/// bound.
#[derive(Debug, Clone, Copy, PartialEq, Eq, Structural)]
pub enum SymbolKind {
    Undefined,
    Absolute,
    Section,
    PreboundUndefined,
    Indirect,
    Lazy,
    Stub,
    Got,
    Unknown,
}

impl SymbolKind {
    pub open spec fn spec_from_n_type(n_type: u8) -> SymbolKind {
        match n_type & constants::N_TYPE {
            constants::N_UNDF => SymbolKind::Undefined,
            constants::N_ABS => SymbolKind::Absolute,
            constants::N_SECT => SymbolKind::Section,
            constants::N_PBUD => SymbolKind::PreboundUndefined,
            constants::N_INDR => SymbolKind::Indirect,
            _ => SymbolKind::Unknown,
        }
    }

    /// The kind that the type bits of `n_type` stand for.
    pub fn from_n_type(n_type: u8) -> (kind: Self)
        ensures
            kind == Self::spec_from_n_type(n_type),
    {
        match n_type & constants::N_TYPE {
            constants::N_UNDF => SymbolKind::Undefined,
            constants::N_ABS => SymbolKind::Absolute,
            constants::N_SECT => SymbolKind::Section,
            constants::N_PBUD => SymbolKind::PreboundUndefined,
            constants::N_INDR => SymbolKind::Indirect,
            _ => SymbolKind::Unknown,
        }
    }
}

/// The number of a section, counted from 1 over all segments of the image.
#[derive(Debug, Clone, Copy, PartialEq, Eq, Hash, Structural)]
pub struct SectionIndex(pub u8);

/// A string found in a section, with the names of the segment and the
/// section that it was found in.
#[derive(Debug, Clone)]
pub struct ParsedString {
    pub value: String,
    pub segname: [u8; 16],
    pub sectname: [u8; 16],
}

/// What a found string holds.
pub struct StringModel {
    pub value: Seq<char>,
    pub segname: Seq<u8>,
    pub sectname: Seq<u8>,
}

impl View for ParsedString {
    type V = StringModel;

    open spec fn view(&self) -> StringModel {
        StringModel { value: self.value@, segname: self.segname@, sectname: self.sectname@ }
    }
}

/// A decoded symbol. The fields `indirect_addr`, `indirect_sect`,
/// `segname` and `sectname` are empty until the symbols are resolved.
#[derive(Debug, Clone)]
pub struct ParsedSymbol {
    pub name: String,
    pub addr: u64,
    pub value: u64,
    pub kind: SymbolKind,
    pub section: Option<SectionIndex>,
    pub is_external: bool,
    pub is_debug: bool,
    pub sectname: Option<String>,
    pub segname: Option<String>,
    pub n_desc: u16,
    pub n_type: u8,
    pub n_sect: u8,
    pub indirect_addr: Option<u64>,
    pub indirect_sect: Option<String>,
}

/// What a decoded symbol holds.
pub struct SymbolModel {
    pub name: Seq<char>,
    pub addr: u64,
    pub value: u64,
    pub kind: SymbolKind,
    pub section: Option<SectionIndex>,
    pub is_external: bool,
    pub is_debug: bool,
    pub sectname: Option<Seq<char>>,
    pub segname: Option<Seq<char>>,
    pub n_desc: u16,
    pub n_type: u8,
    pub n_sect: u8,
    pub indirect_addr: Option<u64>,
    pub indirect_sect: Option<Seq<char>>,
}

/// A text, or a dash in the place of a text that is not there.
pub open spec fn text_or_dash(text: Option<Seq<char>>) -> Seq<char> {
    match text {
        Some(text) => text,
        None => "-"@,
    }
}

/// The text of an optional string.
pub open spec fn text_of(s: Option<String>) -> Option<Seq<char>> {
    match s {
        Some(s) => Some(s@),
        None => None,
    }
}

impl View for ParsedSymbol {
    type V = SymbolModel;

    open spec fn view(&self) -> SymbolModel {
        SymbolModel {
            name: self.name@,
            addr: self.addr,
            value: self.value,
            kind: self.kind,
            section: self.section,
            is_external: self.is_external,
            is_debug: self.is_debug,
            sectname: text_of(self.sectname),
            segname: text_of(self.segname),
            n_desc: self.n_desc,
            n_type: self.n_type,
            n_sect: self.n_sect,
            indirect_addr: self.indirect_addr,
            indirect_sect: text_of(self.indirect_sect),
        }
    }
}

/// The bytes of the name that starts `strx` bytes into the string table,
/// which takes `str_size` bytes from `str_offset` on. A name runs to its
/// first NUL byte, and no further than the table or the file. There is no
/// name where `strx` is 0 or points at or past the end.
pub open spec fn spec_symbol_name_bytes(data: Seq<u8>, str_offset: int, str_size: int, strx: u32) -> Option<
    Seq<u8>,
> {
    let start = str_offset + strx;
    let end = if str_offset + str_size <= data.len() {
        str_offset + str_size
    } else {
        data.len() as int
    };
    if strx == 0 || start >= end {
        None
    } else {
        Some(until_nul(data.subrange(start, end)))
    }
}

/// The name of a symbol, decoded lossily.
pub open spec fn spec_read_symbol_name(data: Seq<u8>, str_offset: int, str_size: int, strx: u32) -> Option<
    Seq<char>,
> {
    match spec_symbol_name_bytes(data, str_offset, str_size, strx) {
        Some(bytes) => Some(utf8_lossy(bytes)),
        None => None,
    }
}

/// Reads the name of a symbol from the string table.
pub fn read_symbol_name(data: &[u8], str_offset: usize, str_size: usize, strx: u32) -> (name: Option<String>)
    ensures
        text_of(name) == spec_read_symbol_name(data@, str_offset as int, str_size as int, strx),
        name is Some && valid_utf8(
            spec_symbol_name_bytes(data@, str_offset as int, str_size as int, strx)->Some_0,
        ) ==> name->Some_0@ == decode_utf8(
            spec_symbol_name_bytes(data@, str_offset as int, str_size as int, strx)->Some_0,
        ),
{
    if strx == 0 {
        return None;
    }
    let len = data.len();
    if str_offset >= len || strx as usize >= len - str_offset {
        return None;
    }
    let start: usize = str_offset + strx as usize;
    let end: usize = if str_size <= len - str_offset {
        str_offset + str_size
    } else {
        len
    };
    if start >= end {
        return None;
    }
    let n = find_nul(data, start, end);
    proof {
        assert(data@.subrange(start as int, end as int).take(n as int) =~= data@.subrange(
            start as int,
            start + n,
        ));
    }
    Some(string_from_utf8_lossy(slice_subrange(data, start, start + n)))
}

/// The symbol that an entry stands for, before it is resolved. An entry
/// without a name is called `N/A`.
pub open spec fn spec_symbol_of(
    n_type: u8,
    n_sect: u8,
    n_desc: u16,
    n_value: u64,
    name: Option<Seq<char>>,
) -> SymbolModel {
    SymbolModel {
        name: match name {
            Some(name) => name,
            None => "N/A"@,
        },
        addr: n_value,
        value: n_value,
        kind: SymbolKind::spec_from_n_type(n_type),
        section: if n_sect == 0 {
            None
        } else {
            Some(SectionIndex(n_sect))
        },
        is_external: n_type & constants::N_EXT != 0,
        is_debug: n_type & constants::N_STAB != 0,
        sectname: None,
        segname: None,
        n_desc,
        n_type,
        n_sect,
        indirect_addr: None,
        indirect_sect: None,
    }
}

fn symbol_of(n_type: u8, n_sect: u8, n_desc: u16, n_value: u64, name: Option<String>) -> (symbol:
    ParsedSymbol)
    ensures
        symbol@ == spec_symbol_of(n_type, n_sect, n_desc, n_value, text_of(name)),
{
    let name = match name {
        Some(name) => name,
        None => "N/A".to_owned(),
    };
    ParsedSymbol {
        name,
        addr: n_value,
        value: n_value,
        kind: SymbolKind::from_n_type(n_type),
        section: if n_sect == 0 {
            None
        } else {
            Some(SectionIndex(n_sect))
        },
        is_external: n_type & constants::N_EXT != 0,
        is_debug: n_type & constants::N_STAB != 0,
        sectname: None,
        segname: None,
        n_desc,
        n_type,
        n_sect,
        indirect_addr: None,
        indirect_sect: None,
    }
}

/// The key by which symbols are put in order: symbols with an address
/// before those without, by address. The address of a symbol is the one it
/// was resolved to, or else its own where that is not 0.
pub open spec fn spec_sort_addr(symbol: SymbolModel) -> Option<u64> {
    match symbol.indirect_addr {
        Some(addr) => Some(addr),
        None => if symbol.addr != 0 {
            Some(symbol.addr)
        } else {
            None
        },
    }
}

impl ParsedSymbol {
    /// The symbol of a 32-bit entry, its value widened to 64 bits and its
    /// name read from the string table.
    pub fn from_nlist32(nlist: NList32, data: &[u8], str_offset: usize, str_size: usize) -> (symbol: Self)
        ensures
            symbol@ == spec_symbol_of(
                nlist.n_type,
                nlist.n_sect,
                nlist.n_desc,
                nlist.n_value as u64,
                spec_read_symbol_name(data@, str_offset as int, str_size as int, nlist.n_strx),
            ),
            ({
                let bytes = spec_symbol_name_bytes(
                    data@,
                    str_offset as int,
                    str_size as int,
                    nlist.n_strx,
                );
                bytes is Some && valid_utf8(bytes->Some_0) ==> symbol.name@ == decode_utf8(bytes->Some_0)
            }),
    {
        let name = read_symbol_name(data, str_offset, str_size, nlist.n_strx);
        symbol_of(nlist.n_type, nlist.n_sect, nlist.n_desc, nlist.n_value as u64, name)
    }

    /// The symbol of a 64-bit entry, its name read from the string table.
    pub fn from_nlist64(nlist: NList64, data: &[u8], str_offset: usize, str_size: usize) -> (symbol: Self)
        ensures
            symbol@ == spec_symbol_of(
                nlist.n_type,
                nlist.n_sect,
                nlist.n_desc,
                nlist.n_value,
                spec_read_symbol_name(data@, str_offset as int, str_size as int, nlist.n_strx),
            ),
            ({
                let bytes = spec_symbol_name_bytes(
                    data@,
                    str_offset as int,
                    str_size as int,
                    nlist.n_strx,
                );
                bytes is Some && valid_utf8(bytes->Some_0) ==> symbol.name@ == decode_utf8(bytes->Some_0)
            }),
    {
        let name = read_symbol_name(data, str_offset, str_size, nlist.n_strx);
        symbol_of(nlist.n_type, nlist.n_sect, nlist.n_desc, nlist.n_value, name)
    }

    /// The short name of the symbol's kind.
    pub open spec fn spec_kind_plain(kind: SymbolKind) -> Seq<char> {
        match kind {
            SymbolKind::Undefined => "UNDEF"@,
            SymbolKind::Absolute => "ABS"@,
            SymbolKind::Section => "SECT"@,
            SymbolKind::PreboundUndefined => "PBUD"@,
            SymbolKind::Indirect => "INDR"@,
            SymbolKind::Lazy => "LAZY"@,
            SymbolKind::Stub => "STUB"@,
            SymbolKind::Got => "GOT"@,
            SymbolKind::Unknown => "UNKNOWN"@,
        }
    }

    /// The short name of the symbol's kind, as plain text.
    pub fn kind_plain(&self) -> (text: String)
        ensures
            text@ == Self::spec_kind_plain(self.kind),
    {
        let text = match self.kind {
            SymbolKind::Undefined => "UNDEF",
            SymbolKind::Absolute => "ABS",
            SymbolKind::Section => "SECT",
            SymbolKind::PreboundUndefined => "PBUD",
            SymbolKind::Indirect => "INDR",
            SymbolKind::Lazy => "LAZY",
            SymbolKind::Stub => "STUB",
            SymbolKind::Got => "GOT",
            SymbolKind::Unknown => "UNKNOWN",
        };
        text.to_owned()
    }

    /// How a symbol is bound, in three letters.
    pub open spec fn spec_bind_str(is_external: bool) -> Seq<char> {
        if is_external {
            "EXT"@
        } else {
            "LOC"@
        }
    }

    /// `EXT` for an external symbol, `LOC` for a local one.
    pub fn bind_str(&self) -> (text: &'static str)
        ensures
            text@ == Self::spec_bind_str(self.is_external),
    {
        if self.is_external {
            "EXT"
        } else {
            "LOC"
        }
    }

    /// The name of the symbol's section, or `-` where it has none.
    pub fn sect_str(&self) -> (text: String)
        ensures
            text@ == text_or_dash(text_of(self.sectname)),
    {
        match &self.sectname {
            Some(name) => name.clone(),
            None => "-".to_owned(),
        }
    }

    /// The name of the symbol's segment, or `-` where it has none.
    pub fn seg_str(&self) -> (text: String)
        ensures
            text@ == text_or_dash(text_of(self.segname)),
    {
        match &self.segname {
            Some(name) => name.clone(),
            None => "-".to_owned(),
        }
    }
}

/// The address by which a symbol is put in order, if it has one.
pub fn sort_addr(sym: &ParsedSymbol) -> (addr: Option<u64>)
    ensures
        addr == spec_sort_addr(sym@),
{
    match sym.indirect_addr {
        Some(addr) => Some(addr),
        None => if sym.addr != 0 {
            Some(sym.addr)
        } else {
            None
        },
    }
}

/// The symbol table command: where the entries and the string table lie,
/// counted from the start of the image.
#[derive(Debug, Clone, Copy, PartialEq, Eq, Structural)]
pub struct SymtabCommand {
    pub cmd: u32,
    pub cmdsize: u32,
    pub symoff: u32,
    pub nsyms: u32,
    pub stroff: u32,
    pub strsize: u32,
}

/// The dynamic symbol table command: the ranges of local, defined external
/// and undefined symbols, and where the indirect symbol table and the other
/// tables of the dynamic linker lie.
#[derive(Debug, Clone, Copy, PartialEq, Eq, Structural)]
pub struct DYSymtabCommand {
    pub cmd: u32,
    pub cmdsize: u32,
    pub ilocalsym: u32,
    pub nlocalsym: u32,
    pub iextdefsym: u32,
    pub nextdefsym: u32,
    pub iundefsym: u32,
    pub nundefsym: u32,
    pub tocoff: u32,
    pub ntoc: u32,
    pub modtaboff: u32,
    pub nmodtab: u32,
    pub extrefsymoff: u32,
    pub nextrefsyms: u32,
    pub indirectsymoff: u32,
    pub nindirectsyms: u32,
    pub extreloff: u32,
    pub nextrel: u32,
    pub locreloff: u32,
    pub nlocrel: u32,
}

/// What `parse_symtab_command` returns: the four fields behind the opcode
/// and the size, where all 24 bytes of the command lie inside the file.
pub open spec fn spec_parse_symtab_command(data: Seq<u8>, lc: LoadCommand, is_be: bool) -> Result<
    SymtabCommand,
    DecodeError,
> {
    let off = lc.offset as int;
    if off + 24 > data.len() {
        Err(DecodeError::at(ErrorKind::TruncatedRecord, Stage::Symtab, 0, off))
    } else {
        Ok(
            SymtabCommand {
                cmd: lc.cmd,
                cmdsize: lc.cmdsize,
                symoff: u32_at(data, off + 8, is_be),
                nsyms: u32_at(data, off + 12, is_be),
                stroff: u32_at(data, off + 16, is_be),
                strsize: u32_at(data, off + 20, is_be),
            },
        )
    }
}

/// Decodes the symbol table command that `lc` points at.
pub fn parse_symtab_command(data: &[u8], lc: &LoadCommand, is_be: bool) -> (r: Result<
    SymtabCommand,
    DecodeError,
>)
    ensures
        r == spec_parse_symtab_command(data@, *lc, is_be),
{
    let len = data.len() as u64;
    if lc.offset > len || len - lc.offset < 24 {
        return Err(DecodeError::new(ErrorKind::TruncatedRecord, Stage::Symtab, 0, lc.offset));
    }
    let off: usize = lc.offset as usize;
    Ok(
        SymtabCommand {
            cmd: lc.cmd,
            cmdsize: lc.cmdsize,
            symoff: read_u32(data, off + 8, is_be),
            nsyms: read_u32(data, off + 12, is_be),
            stroff: read_u32(data, off + 16, is_be),
            strsize: read_u32(data, off + 20, is_be),
        },
    )
}

/// What `parse_dysymtab_command` returns: the eighteen fields behind the
/// opcode and the size, where all 80 bytes of the command lie inside the
/// file.
pub open spec fn spec_parse_dysymtab_command(data: Seq<u8>, lc: LoadCommand, is_be: bool) -> Result<
    DYSymtabCommand,
    DecodeError,
> {
    let off = lc.offset as int;
    if off + 80 > data.len() {
        Err(DecodeError::at(ErrorKind::TruncatedRecord, Stage::Dysymtab, 0, off))
    } else {
        Ok(
            DYSymtabCommand {
                cmd: lc.cmd,
                cmdsize: lc.cmdsize,
                ilocalsym: u32_at(data, off + 8, is_be),
                nlocalsym: u32_at(data, off + 12, is_be),
                iextdefsym: u32_at(data, off + 16, is_be),
                nextdefsym: u32_at(data, off + 20, is_be),
                iundefsym: u32_at(data, off + 24, is_be),
                nundefsym: u32_at(data, off + 28, is_be),
                tocoff: u32_at(data, off + 32, is_be),
                ntoc: u32_at(data, off + 36, is_be),
                modtaboff: u32_at(data, off + 40, is_be),
                nmodtab: u32_at(data, off + 44, is_be),
                extrefsymoff: u32_at(data, off + 48, is_be),
                nextrefsyms: u32_at(data, off + 52, is_be),
                indirectsymoff: u32_at(data, off + 56, is_be),
                nindirectsyms: u32_at(data, off + 60, is_be),
                extreloff: u32_at(data, off + 64, is_be),
                nextrel: u32_at(data, off + 68, is_be),
                locreloff: u32_at(data, off + 72, is_be),
                nlocrel: u32_at(data, off + 76, is_be),
            },
        )
    }
}

/// Decodes the dynamic symbol table command that `lc` points at.
pub fn parse_dysymtab_command(data: &[u8], lc: &LoadCommand, is_be: bool) -> (r: Result<
    DYSymtabCommand,
    DecodeError,
>)
    ensures
        r == spec_parse_dysymtab_command(data@, *lc, is_be),
{
    let len = data.len() as u64;
    if lc.offset > len || len - lc.offset < 80 {
        return Err(DecodeError::new(ErrorKind::TruncatedRecord, Stage::Dysymtab, 0, lc.offset));
    }
    let off: usize = lc.offset as usize;
    Ok(
        DYSymtabCommand {
            cmd: lc.cmd,
            cmdsize: lc.cmdsize,
            ilocalsym: read_u32(data, off + 8, is_be),
            nlocalsym: read_u32(data, off + 12, is_be),
            iextdefsym: read_u32(data, off + 16, is_be),
            nextdefsym: read_u32(data, off + 20, is_be),
            iundefsym: read_u32(data, off + 24, is_be),
            nundefsym: read_u32(data, off + 28, is_be),
            tocoff: read_u32(data, off + 32, is_be),
            ntoc: read_u32(data, off + 36, is_be),
            modtaboff: read_u32(data, off + 40, is_be),
            nmodtab: read_u32(data, off + 44, is_be),
            extrefsymoff: read_u32(data, off + 48, is_be),
            nextrefsyms: read_u32(data, off + 52, is_be),
            indirectsymoff: read_u32(data, off + 56, is_be),
            nindirectsyms: read_u32(data, off + 60, is_be),
            extreloff: read_u32(data, off + 64, is_be),
            nextrel: read_u32(data, off + 68, is_be),
            locreloff: read_u32(data, off + 72, is_be),
            nlocrel: read_u32(data, off + 76, is_be),
        },
    )
}

/// Where entry `i` of a table of `size`-byte entries starts, for the sizes
/// 4, 12 and 16 that the tables of symbols have.
pub open spec fn table_entry_offset(base: int, i: int, size: int) -> int {
    if size == 16 {
        base + 16 * i
    } else if size == 12 {
        base + 12 * i
    } else {
        base + 4 * i
    }
}

/// How many whole entries of `size` bytes a file of `len` bytes holds from
/// `base` on.
pub open spec fn table_entries_that_fit(base: int, len: int, size: int) -> int {
    if base > len {
        0
    } else if size == 16 {
        (len - base) / 16
    } else if size == 12 {
        (len - base) / 12
    } else {
        (len - base) / 4
    }
}

/// An offset as an error reports it: offsets beyond `u64::MAX` are reported
/// as `u64::MAX`.
pub open spec fn reported_offset(off: int) -> int {
    if off > u64::MAX {
        u64::MAX as int
    } else {
        off
    }
}

/// The size of a symbol table entry.
pub open spec fn nlist_size(is_64: bool) -> int {
    if is_64 {
        16
    } else {
        12
    }
}

/// The symbol whose entry starts at `off`, with its name read from the
/// string table of `symtab`. Both tables are placed from the start of the
/// image, which is `slice_offset`.
pub open spec fn spec_symbol_at(
    data: Seq<u8>,
    off: int,
    slice_offset: u64,
    symtab: SymtabCommand,
    is_64: bool,
    is_be: bool,
) -> SymbolModel {
    let stroff = slice_offset + symtab.stroff;
    let strsize = symtab.strsize as int;
    if is_64 {
        let nlist = spec_nlist64_at(data, off, is_be);
        spec_symbol_of(
            nlist.n_type,
            nlist.n_sect,
            nlist.n_desc,
            nlist.n_value,
            spec_read_symbol_name(data, stroff, strsize, nlist.n_strx),
        )
    } else {
        let nlist = spec_nlist32_at(data, off, is_be);
        spec_symbol_of(
            nlist.n_type,
            nlist.n_sect,
            nlist.n_desc,
            nlist.n_value as u64,
            spec_read_symbol_name(data, stroff, strsize, nlist.n_strx),
        )
    }
}

/// What `read_symbols` returns: the `nsyms` symbols of the table in order,
/// or an error that names the first entry that does not lie inside the
/// file.
pub open spec fn spec_read_symbols(
    data: Seq<u8>,
    slice_offset: u64,
    symtab: SymtabCommand,
    is_64: bool,
    is_be: bool,
) -> Result<Seq<SymbolModel>, DecodeError> {
    let base = slice_offset + symtab.symoff;
    let size = nlist_size(is_64);
    let fit = table_entries_that_fit(base, data.len() as int, size);
    if symtab.nsyms <= fit {
        Ok(
            Seq::new(
                symtab.nsyms as nat,
                |i: int|
                    spec_symbol_at(
                        data,
                        table_entry_offset(base, i, size),
                        slice_offset,
                        symtab,
                        is_64,
                        is_be,
                    ),
            ),
        )
    } else {
        Err(symbol_error(fit, reported_offset(table_entry_offset(base, fit, size))))
    }
}

/// The sum of an offset and a field, as an error reports it.
fn offset_sum(base: u64, rel: u32) -> (sum: u64)
    ensures
        sum == reported_offset(base + rel),
{
    if rel as u64 > u64::MAX - base {
        u64::MAX
    } else {
        base + rel as u64
    }
}

/// The place `base + rel` in a file of `len` bytes; a place past the end
/// counts as the end.
fn place_in_file(base: u64, rel: u32, len: usize) -> (place: usize)
    ensures
        base + rel <= len ==> place == base + rel,
        base + rel > len ==> place == len,
{
    let len64 = len as u64;
    if base > len64 || rel as u64 > len64 - base {
        len
    } else {
        (base + rel as u64) as usize
    }
}

proof fn lemma_name_past_the_end(data: Seq<u8>, str_offset: int, str_size: int, strx: u32)
    requires
        str_offset >= data.len(),
        str_size >= 0,
    ensures
        spec_read_symbol_name(data, str_offset, str_size, strx) is None,
{
}

/// Reads the symbols of an image: one for each entry of the symbol table,
/// with its name. Nothing is resolved yet.
pub fn read_symbols(
    data: &[u8],
    slice_offset: u64,
    symtab: &SymtabCommand,
    is_64: bool,
    is_be: bool,
) -> (r: Result<Vec<ParsedSymbol>, DecodeError>)
    ensures
        views_result_is(r, spec_read_symbols(data@, slice_offset, *symtab, is_64, is_be)),
        r is Ok ==> r->Ok_0@.len() == symtab.nsyms,
{
    let len = data.len();
    let len64 = len as u64;
    let size: usize = if is_64 {
        NList64::SIZE
    } else {
        NList32::SIZE
    };
    let mut symbols: Vec<ParsedSymbol> = Vec::new();
    if symtab.nsyms == 0 {
        proof {
            assert(views(symbols@) =~= Seq::<SymbolModel>::empty());
            assert(Seq::<SymbolModel>::empty() =~= spec_read_symbols(
                data@,
                slice_offset,
                *symtab,
                is_64,
                is_be,
            )->Ok_0);
        }
        return Ok(symbols);
    }
    if slice_offset > len64 || symtab.symoff as u64 > len64 - slice_offset {
        return Err(
            DecodeError::new(
                ErrorKind::TruncatedRecord,
                Stage::Symbol,
                0,
                offset_sum(slice_offset, symtab.symoff),
            ),
        );
    }
    let base: usize = (slice_offset + symtab.symoff as u64) as usize;
    let str_offset = place_in_file(slice_offset, symtab.stroff, len);
    let str_size = symtab.strsize as usize;
    let mut offset: usize = base;
    let mut i: u32 = 0;
    while i < symtab.nsyms
        invariant
            i <= symtab.nsyms,
            len == data@.len(),
            size == nlist_size(is_64),
            base == slice_offset + symtab.symoff,
            base <= len,
            i <= table_entries_that_fit(base as int, len as int, size as int),
            offset <= len,
            offset == table_entry_offset(base as int, i as int, size as int),
            slice_offset + symtab.stroff <= len ==> str_offset == slice_offset + symtab.stroff,
            slice_offset + symtab.stroff > len ==> str_offset == len,
            str_size == symtab.strsize,
            symbols@.len() == i,
            forall|k: int|
                0 <= k < i ==> (#[trigger] symbols@[k])@ == spec_symbol_at(
                    data@,
                    table_entry_offset(base as int, k, size as int),
                    slice_offset,
                    *symtab,
                    is_64,
                    is_be,
                ),
        decreases symtab.nsyms - i,
    {
        if len - offset < size {
            return Err(DecodeError::new(ErrorKind::TruncatedRecord, Stage::Symbol, i as u64, offset as u64));
        }
        let symbol = if is_64 {
            let nlist = NList64::parse(data, offset, is_be)?;
            proof {
                if slice_offset + symtab.stroff > len {
                    lemma_name_past_the_end(data@, str_offset as int, str_size as int, nlist.n_strx);
                    lemma_name_past_the_end(
                        data@,
                        slice_offset + symtab.stroff,
                        str_size as int,
                        nlist.n_strx,
                    );
                }
            }
            ParsedSymbol::from_nlist64(nlist, data, str_offset, str_size)
        } else {
            let nlist = NList32::parse(data, offset, is_be)?;
            proof {
                if slice_offset + symtab.stroff > len {
                    lemma_name_past_the_end(data@, str_offset as int, str_size as int, nlist.n_strx);
                    lemma_name_past_the_end(
                        data@,
                        slice_offset + symtab.stroff,
                        str_size as int,
                        nlist.n_strx,
                    );
                }
            }
            ParsedSymbol::from_nlist32(nlist, data, str_offset, str_size)
        };
        symbols.push(symbol);
        offset += size;
        i += 1;
    }
    proof {
        assert(views(symbols@) =~= spec_read_symbols(data@, slice_offset, *symtab, is_64, is_be)->Ok_0);
    }
    Ok(symbols)
}

/// What `read_indirect_symbols` returns: the `nindirectsyms` entries of the
/// indirect symbol table in order, four bytes each, or an error that names
/// the first entry that does not lie inside the file.
pub open spec fn spec_read_indirect_symbols(
    data: Seq<u8>,
    slice_offset: u64,
    dysymtab: DYSymtabCommand,
    is_be: bool,
) -> Result<Seq<u32>, DecodeError> {
    let base = slice_offset + dysymtab.indirectsymoff;
    let fit = table_entries_that_fit(base, data.len() as int, 4);
    if dysymtab.nindirectsyms <= fit {
        Ok(
            Seq::new(
                dysymtab.nindirectsyms as nat,
                |i: int| u32_at(data, table_entry_offset(base, i, 4), is_be),
            ),
        )
    } else {
        Err(
            DecodeError::at(
                ErrorKind::TruncatedRecord,
                Stage::IndirectSymbol,
                fit,
                reported_offset(table_entry_offset(base, fit, 4)),
            ),
        )
    }
}

/// Reads the indirect symbol table: for each slot of a section of stubs or
/// symbol pointers, the number of the symbol that the slot is bound to.
pub fn read_indirect_symbols(
    data: &[u8],
    slice_offset: u64,
    dysymtab: &DYSymtabCommand,
    is_be: bool,
) -> (r: Result<Vec<u32>, DecodeError>)
    ensures
        vec_result_is(r, spec_read_indirect_symbols(data@, slice_offset, *dysymtab, is_be)),
        r is Ok ==> r->Ok_0@.len() == dysymtab.nindirectsyms,
{
    let len = data.len();
    let len64 = len as u64;
    let mut table: Vec<u32> = Vec::new();
    if dysymtab.nindirectsyms == 0 {
        proof {
            assert(table@ =~= spec_read_indirect_symbols(data@, slice_offset, *dysymtab, is_be)->Ok_0);
        }
        return Ok(table);
    }
    if slice_offset > len64 || dysymtab.indirectsymoff as u64 > len64 - slice_offset {
        return Err(
            DecodeError::new(
                ErrorKind::TruncatedRecord,
                Stage::IndirectSymbol,
                0,
                offset_sum(slice_offset, dysymtab.indirectsymoff),
            ),
        );
    }
    let base: usize = (slice_offset + dysymtab.indirectsymoff as u64) as usize;
    let mut offset: usize = base;
    let mut i: u32 = 0;
    while i < dysymtab.nindirectsyms
        invariant
            i <= dysymtab.nindirectsyms,
            len == data@.len(),
            base == slice_offset + dysymtab.indirectsymoff,
            base <= len,
            i <= table_entries_that_fit(base as int, len as int, 4),
            offset <= len,
            offset == table_entry_offset(base as int, i as int, 4),
            table@.len() == i,
            forall|k: int|
                0 <= k < i ==> table@[k] == u32_at(data@, table_entry_offset(base as int, k, 4), is_be),
        decreases dysymtab.nindirectsyms - i,
    {
        if len - offset < 4 {
            return Err(
                DecodeError::new(ErrorKind::TruncatedRecord, Stage::IndirectSymbol, i as u64, offset as u64),
            );
        }
        table.push(read_u32(data, offset, is_be));
        offset += 4;
        i += 1;
    }
    proof {
        assert(table@ =~= spec_read_indirect_symbols(data@, slice_offset, *dysymtab, is_be)->Ok_0);
    }
    Ok(table)
}

/// What the report of a found string says: the string, and the names of
/// its segment and section without their padding.
pub open spec fn spec_string_report(string: StringModel) -> StringReportModel {
    StringReportModel {
        value: string.value,
        segname: spec_padded_name_text(string.segname),
        sectname: spec_padded_name_text(string.sectname),
    }
}

impl ParsedString {
    /// Reports the string.
    pub fn build_report(&self, _is_json: bool) -> (report: StringReport)
        ensures
            report@ == spec_string_report(self@),
    {
        StringReport {
            value: self.value.clone(),
            segname: padded_name_text(&self.segname),
            sectname: padded_name_text(&self.sectname),
        }
    }
}

/// What the report of a symbol says.
pub open spec fn spec_symbol_report(symbol: SymbolModel) -> SymbolReportModel {
    SymbolReportModel {
        name: symbol.name,
        value: symbol.value,
        addr: symbol.addr,
        addr_hex: spec_hex_text(symbol.addr),
        kind: ParsedSymbol::spec_kind_plain(symbol.kind),
        section: match symbol.section {
            Some(index) => Some(index.0),
            None => None,
        },
        sectname: symbol.sectname,
        segname: symbol.segname,
        external: symbol.is_external,
        debug: symbol.is_debug,
    }
}

/// A copy of an optional text.
fn text_copy(text: &Option<String>) -> (copy: Option<String>)
    ensures
        copy == *text,
{
    match text {
        Some(text) => Some(text.clone()),
        None => None,
    }
}

impl ParsedSymbol {
    /// Reports the symbol. The kind is written as plain text; colour is
    /// for whoever prints the report.
    pub fn build_report(&self, _json: bool) -> (report: SymbolReport)
        ensures
            report@ == spec_symbol_report(self@),
    {
        SymbolReport {
            name: self.name.clone(),
            value: self.value,
            addr: self.addr,
            addr_hex: hex_text(self.addr),
            kind: self.kind_plain(),
            section: match self.section {
                Some(index) => Some(index.0),
                None => None,
            },
            sectname: text_copy(&self.sectname),
            segname: text_copy(&self.segname),
            external: self.is_external,
            debug: self.is_debug,
        }
    }

    /// A copy of the symbol.
    pub fn duplicate(&self) -> (copy: ParsedSymbol)
        ensures
            copy == *self,
    {
        ParsedSymbol {
            name: self.name.clone(),
            addr: self.addr,
            value: self.value,
            kind: self.kind,
            section: self.section,
            is_external: self.is_external,
            is_debug: self.is_debug,
            sectname: text_copy(&self.sectname),
            segname: text_copy(&self.segname),
            n_desc: self.n_desc,
            n_type: self.n_type,
            n_sect: self.n_sect,
            indirect_addr: self.indirect_addr,
            indirect_sect: text_copy(&self.indirect_sect),
        }
    }
}

} // verus!
