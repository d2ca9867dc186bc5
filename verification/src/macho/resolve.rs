//! The second look at the symbols: the indirect symbol table says at which
//! address each imported symbol is bound, and the section numbers of the
//! symbols are turned into names.

use vstd::prelude::*;
use crate::macho::constants;
use crate::macho::error::views;
use crate::macho::sections::{ParsedSection, SectionModel};
use crate::macho::segments::{ParsedSegment, SegmentModel};
use crate::macho::symtab::{spec_sort_addr, ParsedSymbol, SectionIndex, SymbolKind, SymbolModel};
use crate::macho::utils::{byte_array_to_string, spec_name_text};

verus! {

/// The size of one entry of a section of stubs or symbol pointers: the
/// section's `reserved2` where that is set, and eight bytes otherwise.
pub open spec fn spec_entry_size(section: SectionModel) -> int {
    if section.reserved2 != 0 {
        section.reserved2 as int
    } else {
        8
    }
}

/// The number of entries of such a section.
pub open spec fn spec_entry_count(section: SectionModel) -> int {
    section.size as int / spec_entry_size(section)
}

/// The kind that an undefined external symbol takes on when it is bound
/// through a section of this name; other symbols keep their kind.
pub open spec fn spec_bound_kind(kind: SymbolKind, is_external: bool, sectname: Seq<char>) -> SymbolKind {
    if kind == SymbolKind::Undefined && is_external {
        if sectname == "__la_symbol_ptr"@ {
            SymbolKind::Lazy
        } else if sectname == "__stubs"@ {
            SymbolKind::Stub
        } else if sectname == "__got"@ {
            SymbolKind::Got
        } else {
            kind
        }
    } else {
        kind
    }
}

/// A symbol after entry `i` of `section` was found to be bound to it: the
/// address of the entry, the names of the section and of its segment, and
/// the kind that follows from the section's name.
pub open spec fn spec_bind(symbol: SymbolModel, section: SectionModel, i: int) -> SymbolModel {
    SymbolModel {
        indirect_sect: Some(spec_name_text(section.sectname)),
        segname: Some(spec_name_text(section.segname)),
        indirect_addr: Some((section.addr + i * spec_entry_size(section)) as u64),
        kind: spec_bound_kind(symbol.kind, symbol.is_external, spec_name_text(section.sectname)),
        ..symbol
    }
}

/// The symbol that entry `i` of `section` is bound to, if it is bound to
/// one. The entry's slot in the indirect symbol table is `reserved1 + i`.
/// An entry binds no symbol where the table has no such slot, where the
/// slot holds one of the two values that stand for no symbol or a number
/// that no symbol has, and where the entry's address is past the end of
/// the address space.
pub open spec fn spec_slot_target(table: Seq<u32>, section: SectionModel, i: int, nsyms: int) -> Option<int> {
    let slot = section.reserved1 + i;
    if slot >= table.len() {
        None
    } else {
        let target = table[slot];
        if target == constants::INDIRECT_SYMBOL_ABS || target == constants::INDIRECT_SYMBOL_LOCAL
            || target >= nsyms || section.addr + i * spec_entry_size(section) > u64::MAX {
            None
        } else {
            Some(target as int)
        }
    }
}

/// The symbols after entry `i` of `section` was looked at.
pub open spec fn spec_resolve_entry(
    symbols: Seq<SymbolModel>,
    table: Seq<u32>,
    section: SectionModel,
    i: int,
) -> Seq<SymbolModel> {
    match spec_slot_target(table, section, i, symbols.len() as int) {
        Some(target) => symbols.update(target, spec_bind(symbols[target], section, i)),
        None => symbols,
    }
}

/// The symbols after the first `n` entries of `section` were looked at,
/// one after the other.
pub open spec fn spec_resolve_entries(
    symbols: Seq<SymbolModel>,
    table: Seq<u32>,
    section: SectionModel,
    n: int,
) -> Seq<SymbolModel>
    decreases n,
{
    if n <= 0 {
        symbols
    } else {
        spec_resolve_entry(spec_resolve_entries(symbols, table, section, n - 1), table, section, n - 1)
    }
}

/// The symbols after `section` was looked at: all of its entries, where it
/// is a section of stubs or symbol pointers, and nothing otherwise.
pub open spec fn spec_resolve_section(symbols: Seq<SymbolModel>, table: Seq<u32>, section: SectionModel) -> Seq<
    SymbolModel,
> {
    if section.kind.spec_uses_indirect_symbols() {
        spec_resolve_entries(symbols, table, section, spec_entry_count(section))
    } else {
        symbols
    }
}

/// The symbols after the first `n` of `sections` were looked at, in order.
pub open spec fn spec_resolve_symbols(
    symbols: Seq<SymbolModel>,
    table: Seq<u32>,
    sections: Seq<SectionModel>,
    n: int,
) -> Seq<SymbolModel>
    decreases n,
{
    if n <= 0 {
        symbols
    } else {
        spec_resolve_section(spec_resolve_symbols(symbols, table, sections, n - 1), table, sections[n - 1])
    }
}

proof fn lemma_resolve_keeps_length(symbols: Seq<SymbolModel>, table: Seq<u32>, section: SectionModel, n: int)
    ensures
        spec_resolve_entries(symbols, table, section, n).len() == symbols.len(),
    decreases n,
{
    if n > 0 {
        lemma_resolve_keeps_length(symbols, table, section, n - 1);
    }
}

/// Entries whose slots lie past the end of the table change nothing.
proof fn lemma_entries_past_the_table(
    symbols: Seq<SymbolModel>,
    table: Seq<u32>,
    section: SectionModel,
    from: int,
    n: int,
)
    requires
        0 <= from <= n,
        section.reserved1 + from >= table.len(),
    ensures
        spec_resolve_entries(symbols, table, section, n) == spec_resolve_entries(
            symbols,
            table,
            section,
            from,
        ),
    decreases n - from,
{
    if from < n {
        lemma_entries_past_the_table(symbols, table, section, from, n - 1);
        lemma_resolve_keeps_length(symbols, table, section, n - 1);
    }
}

/// Tells the kind that a symbol takes on when it is bound through a section
/// with the given name.
pub fn bound_kind(kind: SymbolKind, is_external: bool, sectname: &String) -> (bound: SymbolKind)
    ensures
        bound == spec_bound_kind(kind, is_external, sectname@),
{
    if kind == SymbolKind::Undefined && is_external {
        if *sectname == "__la_symbol_ptr".to_owned() {
            SymbolKind::Lazy
        } else if *sectname == "__stubs".to_owned() {
            SymbolKind::Stub
        } else if *sectname == "__got".to_owned() {
            SymbolKind::Got
        } else {
            kind
        }
    } else {
        kind
    }
}

/// Looks at one section: each of its entries whose slot in the indirect
/// symbol table names a symbol gives that symbol its address.
pub fn resolve_section(symbols: &mut Vec<ParsedSymbol>, indirect_table: &[u32], section: &ParsedSection)
    ensures
        views(final(symbols)@) == spec_resolve_section(views(old(symbols)@), indirect_table@, section@),
        final(symbols)@.len() == old(symbols)@.len(),
{
    if !section.kind.uses_indirect_symbols() {
        return ;
    }
    let entry_size: u64 = if section.reserved2 != 0 {
        section.reserved2 as u64
    } else {
        8
    };
    let count: u64 = section.size / entry_size;
    let first_slot: u64 = section.reserved1 as u64;
    let slots: u64 = indirect_table.len() as u64;
    let sectname = byte_array_to_string(&section.sectname);
    let segname = byte_array_to_string(&section.segname);
    let ghost before = views(symbols@);
    let mut i: u64 = 0;
    let mut offset: u64 = 0;
    while i < count && first_slot < slots && i < slots - first_slot
        invariant
            i <= count,
            count == spec_entry_count(section@),
            entry_size == spec_entry_size(section@),
            entry_size > 0,
            first_slot == section.reserved1,
            slots == indirect_table@.len(),
            offset == i * entry_size,
            offset <= section.size,
            sectname@ == spec_name_text(section.sectname@),
            segname@ == spec_name_text(section.segname@),
            symbols@.len() == before.len(),
            views(symbols@) == spec_resolve_entries(before, indirect_table@, section@, i as int),
        decreases count - i,
    {
        let target = indirect_table[(first_slot + i) as usize];
        if target != constants::INDIRECT_SYMBOL_ABS && target != constants::INDIRECT_SYMBOL_LOCAL
            && (target as usize) < symbols.len() && offset <= u64::MAX - section.addr {
            let idx = target as usize;
            let kind = bound_kind(symbols[idx].kind, symbols[idx].is_external, &sectname);
            symbols[idx].indirect_sect = Some(sectname.clone());
            symbols[idx].segname = Some(segname.clone());
            symbols[idx].indirect_addr = Some(section.addr + offset);
            symbols[idx].kind = kind;
        }
        proof {
            assert((i + 1) * entry_size == i * entry_size + entry_size) by (nonlinear_arith);
            assert((i + 1) * entry_size <= section.size) by (nonlinear_arith)
                requires
                    i + 1 <= section.size as int / entry_size as int,
                    entry_size > 0,
            ;
        }
        offset += entry_size;
        i += 1;
    }
    proof {
        if i < count {
            lemma_entries_past_the_table(before, indirect_table@, section@, i as int, count as int);
        }
    }
}

/// Attaches to each imported symbol the address at which it is bound. The
/// sections are looked at in order; each section of stubs or symbol
/// pointers is a run of entries that stand, one for one, for the slots of
/// the indirect symbol table from the section's `reserved1` on.
pub fn resolve_symbols(symbols: &mut Vec<ParsedSymbol>, indirect_table: &[u32], sections: &[ParsedSection])
    ensures
        views(final(symbols)@) == spec_resolve_symbols(
            views(old(symbols)@),
            indirect_table@,
            views(sections@),
            sections@.len() as int,
        ),
        final(symbols)@.len() == old(symbols)@.len(),
{
    let ghost before = views(symbols@);
    let mut k: usize = 0;
    while k < sections.len()
        invariant
            k <= sections@.len(),
            symbols@.len() == before.len(),
            views(symbols@) == spec_resolve_symbols(before, indirect_table@, views(sections@), k as int),
        decreases sections@.len() - k,
    {
        resolve_section(symbols, indirect_table, &sections[k]);
        k += 1;
    }
}

/// The sections of the first `n` segments, in the order of the file.
pub open spec fn spec_all_sections(segments: Seq<SegmentModel>, n: int) -> Seq<SectionModel>
    decreases n,
{
    if n <= 0 {
        Seq::empty()
    } else {
        spec_all_sections(segments, n - 1) + segments[n - 1].sections
    }
}

/// Lists the sections of all segments in the order of the file.
pub fn all_sections(segments: &[ParsedSegment]) -> (sections: Vec<ParsedSection>)
    ensures
        views(sections@) == spec_all_sections(views(segments@), segments@.len() as int),
{
    let mut sections: Vec<ParsedSection> = Vec::new();
    let mut k: usize = 0;
    while k < segments.len()
        invariant
            k <= segments@.len(),
            views(sections@) == spec_all_sections(views(segments@), k as int),
        decreases segments@.len() - k,
    {
        let segment = &segments[k];
        let ghost before = views(sections@);
        let mut j: usize = 0;
        while j < segment.sections.len()
            invariant
                j <= segment.sections@.len(),
                views(sections@) == before + segment@.sections.take(j as int),
            decreases segment.sections@.len() - j,
        {
            let ghost current = views(sections@);
            sections.push(segment.sections[j]);
            proof {
                assert(views(sections@) =~= current.push(segment.sections@[j as int]@));
            }
            j += 1;
        }
        k += 1;
    }
    sections
}

/// The names that a section goes by: the name of the segment that holds it
/// and its own.
pub struct SectionNames {
    pub segname: Seq<char>,
    pub sectname: Seq<char>,
}

/// The names of the sections of the first `n` segments, in the order of the
/// file. The section numbered `k` in a symbol is the one at `k - 1`.
pub open spec fn spec_section_names(segments: Seq<SegmentModel>, n: int) -> Seq<SectionNames>
    decreases n,
{
    if n <= 0 {
        Seq::empty()
    } else {
        let segment = segments[n - 1];
        spec_section_names(segments, n - 1) + Seq::new(
            segment.sections.len(),
            |j: int|
                SectionNames {
                    segname: spec_name_text(segment.segname),
                    sectname: spec_name_text(segment.sections[j].sectname),
                },
        )
    }
}

/// A symbol with the names of its section, where its section number is
/// that of a section; unchanged otherwise.
pub open spec fn spec_name_symbol(symbol: SymbolModel, names: Seq<SectionNames>) -> SymbolModel {
    match symbol.section {
        Some(index) => if 1 <= index.0 <= names.len() {
            SymbolModel {
                segname: Some(names[index.0 - 1].segname),
                sectname: Some(names[index.0 - 1].sectname),
                ..symbol
            }
        } else {
            symbol
        },
        None => symbol,
    }
}

/// All symbols with the names of their sections.
pub open spec fn spec_attach_section_names(symbols: Seq<SymbolModel>, segments: Seq<SegmentModel>) -> Seq<
    SymbolModel,
> {
    Seq::new(
        symbols.len(),
        |i: int| spec_name_symbol(symbols[i], spec_section_names(segments, segments.len() as int)),
    )
}

/// Gives each symbol that lies in a section the names of that section and
/// of its segment. Sections are numbered from 1 over all segments in the
/// order of the file.
pub fn attach_section_names(symbols: &mut Vec<ParsedSymbol>, segments: &[ParsedSegment])
    ensures
        views(final(symbols)@) == spec_attach_section_names(views(old(symbols)@), views(segments@)),
        final(symbols)@.len() == old(symbols)@.len(),
{
    let mut seg_names: Vec<String> = Vec::new();
    let mut sect_names: Vec<String> = Vec::new();
    let mut k: usize = 0;
    while k < segments.len()
        invariant
            k <= segments@.len(),
            seg_names@.len() == sect_names@.len(),
            seg_names@.len() == spec_section_names(views(segments@), k as int).len(),
            forall|n: int|
                0 <= n < seg_names@.len() ==> (#[trigger] seg_names@[n])@ == spec_section_names(
                    views(segments@),
                    k as int,
                )[n].segname,
            forall|n: int|
                0 <= n < sect_names@.len() ==> (#[trigger] sect_names@[n])@ == spec_section_names(
                    views(segments@),
                    k as int,
                )[n].sectname,
        decreases segments@.len() - k,
    {
        let segment = &segments[k];
        let ghost done = spec_section_names(views(segments@), k as int);
        let mut j: usize = 0;
        while j < segment.sections.len()
            invariant
                j <= segment.sections@.len(),
                seg_names@.len() == sect_names@.len(),
                seg_names@.len() == done.len() + j,
                forall|n: int| 0 <= n < done.len() ==> (#[trigger] seg_names@[n])@ == done[n].segname,
                forall|n: int| 0 <= n < done.len() ==> (#[trigger] sect_names@[n])@ == done[n].sectname,
                forall|n: int|
                    done.len() <= n < done.len() + j ==> (#[trigger] seg_names@[n])@ == spec_name_text(
                        segment.segname@,
                    ),
                forall|n: int|
                    done.len() <= n < done.len() + j ==> (#[trigger] sect_names@[n])@ == spec_name_text(
                        segment@.sections[n - done.len()].sectname,
                    ),
            decreases segment.sections@.len() - j,
        {
            seg_names.push(byte_array_to_string(&segment.segname));
            sect_names.push(byte_array_to_string(&segment.sections[j].sectname));
            j += 1;
        }
        k += 1;
    }
    let ghost names = spec_section_names(views(segments@), segments@.len() as int);
    let ghost before = views(symbols@);
    let mut i: usize = 0;
    while i < symbols.len()
        invariant
            i <= symbols@.len(),
            symbols@.len() == before.len(),
            names == spec_section_names(views(segments@), segments@.len() as int),
            seg_names@.len() == sect_names@.len() == names.len(),
            forall|n: int| 0 <= n < names.len() ==> (#[trigger] seg_names@[n])@ == names[n].segname,
            forall|n: int| 0 <= n < names.len() ==> (#[trigger] sect_names@[n])@ == names[n].sectname,
            forall|n: int| 0 <= n < i ==> (#[trigger] symbols@[n])@ == spec_name_symbol(before[n], names),
            forall|n: int| i <= n < symbols@.len() ==> (#[trigger] symbols@[n])@ == before[n],
        decreases symbols@.len() - i,
    {
        if let Some(SectionIndex(number)) = symbols[i].section {
            let number = number as usize;
            if 1 <= number && number <= seg_names.len() {
                symbols[i].segname = Some(seg_names[number - 1].clone());
                symbols[i].sectname = Some(sect_names[number - 1].clone());
            }
        }
        i += 1;
    }
}

/// The key by which symbols are put in order: those with an address come
/// first, by address, and those without come last.
pub open spec fn spec_sort_key(symbol: SymbolModel) -> (u8, u64) {
    match spec_sort_addr(symbol) {
        Some(addr) => (0u8, addr),
        None => (1u8, 0u64),
    }
}

/// The key of a symbol.
pub fn sort_key(symbol: &ParsedSymbol) -> (key: (u8, u64))
    ensures
        key == spec_sort_key(symbol@),
{
    match symbol.indirect_addr {
        Some(addr) => (0, addr),
        None => if symbol.addr != 0 {
            (0, symbol.addr)
        } else {
            (1, 0)
        },
    }
}

/// The order of keys: by the first part, and by the second among equals.
pub open spec fn key_le(a: (u8, u64), b: (u8, u64)) -> bool {
    a.0 < b.0 || (a.0 == b.0 && a.1 <= b.1)
}

/// The symbols that have the given key, in their order.
pub open spec fn symbols_with_key(symbols: Seq<ParsedSymbol>, key: (u8, u64)) -> Seq<ParsedSymbol> {
    symbols.filter(|symbol: ParsedSymbol| spec_sort_key(symbol@) == key)
}

/// `after` is `before` put in order without changing the order of symbols
/// with equal keys: the keys never go down, and for every key the symbols
/// that have it are the same and stand in the same order.
pub open spec fn is_stable_sort_of(after: Seq<ParsedSymbol>, before: Seq<ParsedSymbol>) -> bool {
    &&& after.len() == before.len()
    &&& forall|i: int, j: int|
        0 <= i < j < after.len() ==> key_le(
            spec_sort_key(#[trigger] after[i]@),
            spec_sort_key(#[trigger] after[j]@),
        )
    &&& forall|key: (u8, u64)| #[trigger] symbols_with_key(after, key) == symbols_with_key(before, key)
}

/// Sorts with the slice method `sort_by_key`, which is stable, by the keys
/// that `sort_key` gives.
#[verifier::external_body]
fn stable_sort_by_key(symbols: &mut Vec<ParsedSymbol>)
    ensures
        is_stable_sort_of(final(symbols)@, old(symbols)@),
{
    symbols.sort_by_key(|symbol| sort_key(symbol));
}

/// Puts the symbols in the order in which they are shown: by address, and
/// those without an address last. Symbols that compare equal keep their
/// order.
pub fn sort_symbols(symbols: &mut Vec<ParsedSymbol>)
    ensures
        is_stable_sort_of(final(symbols)@, old(symbols)@),
{
    stable_sort_by_key(symbols);
}

/// What resolving never touches: the name of a symbol, its value and
/// address, what its `n_type` says, and the number and name of its section.
pub open spec fn same_entry(a: SymbolModel, b: SymbolModel) -> bool {
    &&& a.name == b.name
    &&& a.addr == b.addr
    &&& a.value == b.value
    &&& a.section == b.section
    &&& a.is_external == b.is_external
    &&& a.is_debug == b.is_debug
    &&& a.sectname == b.sectname
    &&& a.n_desc == b.n_desc
    &&& a.n_type == b.n_type
    &&& a.n_sect == b.n_sect
}

/// A slot that holds one of the two values that stand for no symbol binds
/// nothing: the symbols are as they were.
pub proof fn lemma_sentinel_binds_nothing(
    symbols: Seq<SymbolModel>,
    table: Seq<u32>,
    section: SectionModel,
    i: int,
)
    requires
        0 <= i,
        section.reserved1 + i < table.len(),
        table[section.reserved1 + i] == constants::INDIRECT_SYMBOL_ABS || table[section.reserved1 + i]
            == constants::INDIRECT_SYMBOL_LOCAL,
    ensures
        spec_resolve_entry(symbols, table, section, i) == symbols,
{
}

/// An entry that is bound to a symbol gives that symbol the address of the
/// entry, which is the address of the section and `i` times the size of an
/// entry, and leaves every other symbol as it was.
pub proof fn lemma_entry_binds_at_its_address(
    symbols: Seq<SymbolModel>,
    table: Seq<u32>,
    section: SectionModel,
    i: int,
)
    requires
        0 <= i,
        spec_slot_target(table, section, i, symbols.len() as int) is Some,
    ensures
        ({
            let target = spec_slot_target(table, section, i, symbols.len() as int)->Some_0;
            let after = spec_resolve_entry(symbols, table, section, i);
            &&& target == table[section.reserved1 + i]
            &&& 0 <= target < symbols.len()
            &&& after.len() == symbols.len()
            &&& after[target].indirect_addr == Some((section.addr + i * spec_entry_size(section)) as u64)
            &&& section.addr + i * spec_entry_size(section) <= u64::MAX
            &&& forall|k: int| 0 <= k < symbols.len() && k != target ==> after[k] == symbols[k]
        }),
{
}

proof fn lemma_entries_keep_entries(symbols: Seq<SymbolModel>, table: Seq<u32>, section: SectionModel, n: int)
    ensures
        spec_resolve_entries(symbols, table, section, n).len() == symbols.len(),
        forall|k: int|
            0 <= k < symbols.len() ==> same_entry(
                #[trigger] spec_resolve_entries(symbols, table, section, n)[k],
                symbols[k],
            ),
    decreases n,
{
    if n > 0 {
        lemma_entries_keep_entries(symbols, table, section, n - 1);
    }
}

/// Resolving changes neither the number of symbols nor what the symbol
/// table said of any of them: only where a symbol is bound, and its kind,
/// can differ afterwards.
pub proof fn lemma_resolving_keeps_entries(
    symbols: Seq<SymbolModel>,
    table: Seq<u32>,
    sections: Seq<SectionModel>,
    n: int,
)
    ensures
        spec_resolve_symbols(symbols, table, sections, n).len() == symbols.len(),
        forall|k: int|
            0 <= k < symbols.len() ==> same_entry(
                #[trigger] spec_resolve_symbols(symbols, table, sections, n)[k],
                symbols[k],
            ),
    decreases n,
{
    if n > 0 {
        lemma_resolving_keeps_entries(symbols, table, sections, n - 1);
        let before = spec_resolve_symbols(symbols, table, sections, n - 1);
        lemma_entries_keep_entries(before, table, sections[n - 1], spec_entry_count(sections[n - 1]));
    }
}

} // verus!
