//! The fat (universal) container: its header and its table of
//! architectures, each entry naming where one thin image lies in the file.

use vstd::prelude::*;
use crate::macho::constants;
use crate::macho::error::{vec_result_is, DecodeError, ErrorKind, Stage};
use crate::macho::utils::{i32_at, read_i32, read_u32, read_u64, u32_at, u64_at};

verus! {

/// The four fat magic numbers: the width of the table entries and the byte
/// order of header and table.
#[derive(Debug, Clone, Copy, PartialEq, Eq, Structural)]
pub enum FatKind {
    Fat32BE,
    Fat32LE,
    Fat64BE,
    Fat64LE,
}

impl FatKind {
    pub open spec fn spec_is_64(self) -> bool {
        self == FatKind::Fat64BE || self == FatKind::Fat64LE
    }

    pub open spec fn spec_is_be(self) -> bool {
        self == FatKind::Fat32BE || self == FatKind::Fat64BE
    }

    /// Whether the table entries are of the 64-bit form.
    #[verifier::when_used_as_spec(spec_is_64)]
    pub fn is_64(self) -> (b: bool)
        ensures
            b == self.spec_is_64(),
    {
        matches!(self, FatKind::Fat64BE | FatKind::Fat64LE)
    }

    /// Whether header and table are big-endian.
    #[verifier::when_used_as_spec(spec_is_be)]
    pub fn is_be(self) -> (b: bool)
        ensures
            b == self.spec_is_be(),
    {
        matches!(self, FatKind::Fat32BE | FatKind::Fat64BE)
    }
}

/// The fat header: what the magic number said, and the number of entries in
/// the table that follows.
#[derive(Debug, Clone, Copy, PartialEq, Eq, Structural)]
pub struct FatHeader {
    pub kind: FatKind,
    pub nfat_arch: u32,
}

/// A table entry of the 32-bit form, 20 bytes in the file.
#[derive(Debug, Clone, Copy, PartialEq, Eq, Structural)]
pub struct FatArch32 {
    pub cputype: i32,
    pub cpusubtype: i32,
    /// Where the image begins in the file.
    pub offset: u32,
    /// The size of the image in bytes.
    pub size: u32,
    /// The alignment of the image, as a power of two.
    pub align: u32,
}

/// A table entry of the 64-bit form, 32 bytes in the file.
#[derive(Debug, Clone, Copy, PartialEq, Eq, Structural)]
pub struct FatArch64 {
    pub cputype: i32,
    pub cpusubtype: i32,
    pub offset: u64,
    pub size: u64,
    pub align: u32,
    pub reserved: u32,
}

#[derive(Debug, Clone, Copy, PartialEq, Eq, Structural)]
pub enum FatArch {
    Arch32(FatArch32),
    Arch64(FatArch64),
}

/// The kind that four magic bytes stand for, if any.
pub open spec fn spec_fat_kind(magic: Seq<u8>) -> Option<FatKind> {
    if magic == constants::FAT_MAGIC@ {
        Some(FatKind::Fat32BE)
    } else if magic == constants::FAT_MAGIC_64@ {
        Some(FatKind::Fat64BE)
    } else if magic == constants::FAT_CIGAM@ {
        Some(FatKind::Fat32LE)
    } else if magic == constants::FAT_CIGAM_64@ {
        Some(FatKind::Fat64LE)
    } else {
        None
    }
}

/// What `read_fat_header` returns: the file must hold the eight bytes of a
/// fat header and begin with a fat magic number; the count is read in the
/// byte order that the magic number implies.
pub open spec fn spec_read_fat_header(data: Seq<u8>) -> Result<FatHeader, DecodeError> {
    if data.len() < 8 {
        Err(DecodeError::at(ErrorKind::TruncatedRecord, Stage::FatHeader, 0, 0))
    } else {
        match spec_fat_kind(data.subrange(0, 4)) {
            None => Err(DecodeError::at(ErrorKind::NotRecognizedContainer, Stage::FatHeader, 0, 0)),
            Some(kind) => Ok(FatHeader { kind, nfat_arch: u32_at(data, 4, kind.is_be()) }),
        }
    }
}

/// Whether the four bytes at `off` are the bytes of `magic`.
pub(crate) fn magic_is(data: &[u8], off: usize, magic: &[u8; 4]) -> (b: bool)
    requires
        off + 4 <= data.len(),
    ensures
        b == (data@.subrange(off as int, off + 4) == magic@),
{
    let b = data[off] == magic[0] && data[off + 1] == magic[1] && data[off + 2] == magic[2]
        && data[off + 3] == magic[3];
    proof {
        let found = data@.subrange(off as int, off + 4);
        if b {
            assert(found =~= magic@);
        }
    }
    b
}

/// Reads the fat header at the start of the file.
pub fn read_fat_header(data: &[u8]) -> (r: Result<FatHeader, DecodeError>)
    ensures
        r == spec_read_fat_header(data@),
{
    if data.len() < constants::FAT_HEADER_SIZE {
        return Err(DecodeError::new(ErrorKind::TruncatedRecord, Stage::FatHeader, 0, 0));
    }
    let kind = if magic_is(data, 0, &constants::FAT_MAGIC) {
        FatKind::Fat32BE
    } else if magic_is(data, 0, &constants::FAT_MAGIC_64) {
        FatKind::Fat64BE
    } else if magic_is(data, 0, &constants::FAT_CIGAM) {
        FatKind::Fat32LE
    } else if magic_is(data, 0, &constants::FAT_CIGAM_64) {
        FatKind::Fat64LE
    } else {
        return Err(DecodeError::new(ErrorKind::NotRecognizedContainer, Stage::FatHeader, 0, 0));
    };
    let nfat_arch = read_u32(data, 4, kind.is_be());
    Ok(FatHeader { kind, nfat_arch })
}

/// The size of one table entry.
pub open spec fn fat_arch_size(kind: FatKind) -> int {
    if kind.is_64() {
        32
    } else {
        20
    }
}

/// Where entry `i` of the table starts: the entries follow the header back
/// to back.
pub open spec fn fat_arch_offset(kind: FatKind, i: int) -> int {
    if kind.is_64() {
        8 + 32 * i
    } else {
        8 + 20 * i
    }
}

/// How many whole table entries a file of `len` bytes has room for.
pub open spec fn fat_archs_that_fit(kind: FatKind, len: int) -> int {
    if len < 8 {
        0
    } else if kind.is_64() {
        (len - 8) / 32
    } else {
        (len - 8) / 20
    }
}

/// The table entry whose first byte is at `base`.
pub open spec fn spec_fat_arch_at(data: Seq<u8>, base: int, kind: FatKind) -> FatArch {
    let be = kind.is_be();
    if kind.is_64() {
        FatArch::Arch64(
            FatArch64 {
                cputype: i32_at(data, base, be),
                cpusubtype: i32_at(data, base + 4, be),
                offset: u64_at(data, base + 8, be),
                size: u64_at(data, base + 16, be),
                align: u32_at(data, base + 24, be),
                reserved: u32_at(data, base + 28, be),
            },
        )
    } else {
        FatArch::Arch32(
            FatArch32 {
                cputype: i32_at(data, base, be),
                cpusubtype: i32_at(data, base + 4, be),
                offset: u32_at(data, base + 8, be),
                size: u32_at(data, base + 12, be),
                align: u32_at(data, base + 16, be),
            },
        )
    }
}

/// What `read_fat_archs` returns. Where the file has room for all
/// `nfat_arch` entries, they are returned in table order; otherwise the
/// error names the first entry that runs past the end of the file.
pub open spec fn spec_read_fat_archs(data: Seq<u8>, header: FatHeader) -> Result<
    Seq<FatArch>,
    DecodeError,
> {
    let fit = fat_archs_that_fit(header.kind, data.len() as int);
    if header.nfat_arch <= fit {
        Ok(
            Seq::new(
                header.nfat_arch as nat,
                |i: int| spec_fat_arch_at(data, fat_arch_offset(header.kind, i), header.kind),
            ),
        )
    } else {
        Err(
            DecodeError::at(
                ErrorKind::TruncatedRecord,
                Stage::FatArch,
                fit,
                fat_arch_offset(header.kind, fit),
            ),
        )
    }
}

/// Reads the table of architectures that follows the fat header. A table
/// that is cut short yields an error and no entries.
pub fn read_fat_archs(data: &[u8], header: &FatHeader) -> (r: Result<Vec<FatArch>, DecodeError>)
    ensures
        vec_result_is(r, spec_read_fat_archs(data@, *header)),
        r is Ok ==> r->Ok_0@.len() == header.nfat_arch,
        r is Ok <==> header.nfat_arch <= fat_archs_that_fit(header.kind, data@.len() as int),
{
    let kind = header.kind;
    let be = kind.is_be();
    let size: usize = if kind.is_64() {
        constants::FAT_ARCH64_SIZE
    } else {
        constants::FAT_ARCH32_SIZE
    };
    let mut archs: Vec<FatArch> = Vec::new();
    let mut offset: usize = constants::FAT_HEADER_SIZE;
    let mut i: u32 = 0;
    while i < header.nfat_arch
        invariant
            i <= header.nfat_arch,
            kind == header.kind,
            be == kind.is_be(),
            size == fat_arch_size(kind),
            offset == fat_arch_offset(kind, i as int),
            i > 0 ==> offset <= data@.len(),
            i <= fat_archs_that_fit(kind, data@.len() as int),
            archs@.len() == i,
            forall|k: int|
                0 <= k < i ==> archs@[k] == spec_fat_arch_at(data@, fat_arch_offset(kind, k), kind),
        decreases header.nfat_arch - i,
    {
        if offset > data.len() || data.len() - offset < size {
            return Err(DecodeError::new(ErrorKind::TruncatedRecord, Stage::FatArch, i as u64, offset as u64));
        }
        let base = offset;
        let arch = if kind.is_64() {
            FatArch::Arch64(
                FatArch64 {
                    cputype: read_i32(data, base, be),
                    cpusubtype: read_i32(data, base + 4, be),
                    offset: read_u64(data, base + 8, be),
                    size: read_u64(data, base + 16, be),
                    align: read_u32(data, base + 24, be),
                    reserved: read_u32(data, base + 28, be),
                },
            )
        } else {
            FatArch::Arch32(
                FatArch32 {
                    cputype: read_i32(data, base, be),
                    cpusubtype: read_i32(data, base + 4, be),
                    offset: read_u32(data, base + 8, be),
                    size: read_u32(data, base + 12, be),
                    align: read_u32(data, base + 16, be),
                },
            )
        };
        archs.push(arch);
        offset += size;
        i += 1;
    }
    proof {
        assert(archs@ =~= Seq::new(
            header.nfat_arch as nat,
            |i: int| spec_fat_arch_at(data@, fat_arch_offset(header.kind, i), header.kind),
        ));
    }
    Ok(archs)
}

/// A table that is cut short, even by a single byte of its last entry, is
/// an error: no entry is made up from what is left.
pub proof fn lemma_truncated_table_is_error(data: Seq<u8>, header: FatHeader)
    requires
        header.nfat_arch > 0,
        data.len() < fat_arch_offset(header.kind, header.nfat_arch as int),
    ensures
        spec_read_fat_archs(data, header) is Err,
{
}

/// A table that is read whole has the number of entries that the header
/// announced, and entry `i` is made of the bytes at its place in the table.
pub proof fn lemma_fat_archs_count(data: Seq<u8>, header: FatHeader)
    requires
        spec_read_fat_archs(data, header) is Ok,
    ensures
        spec_read_fat_archs(data, header)->Ok_0.len() == header.nfat_arch,
        fat_arch_offset(header.kind, header.nfat_arch as int) <= data.len() || header.nfat_arch == 0,
        forall|i: int|
            0 <= i < header.nfat_arch ==> #[trigger] spec_read_fat_archs(data, header)->Ok_0[i]
                == spec_fat_arch_at(data, fat_arch_offset(header.kind, i), header.kind),
{
}

} // verus!
