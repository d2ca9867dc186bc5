//! The first look at a file: is it a fat container or a thin image, of
//! which word size and in which byte order.

use vstd::prelude::*;
use crate::macho::constants;
use crate::macho::error::{vec_result_is, DecodeError, ErrorKind, Stage};
use crate::macho::fat::{
    magic_is, read_fat_archs, read_fat_header, spec_fat_kind, spec_read_fat_archs,
    spec_read_fat_header, FatArch, FatKind,
};
use crate::macho::header::{spec_macho_kind, MachOKind, MachOSlice};

verus! {

/// What a file is, by its magic number.
#[derive(Debug, Clone, Copy, PartialEq, Eq, Structural)]
pub enum ContainerKind {
    /// One image.
    Thin(MachOKind),
    /// A table of images, one for each architecture.
    Fat(FatKind),
}

/// What `classify_container` returns. The first four bytes must be one of
/// the eight magic numbers; a fat file must also hold the four bytes of its
/// count of architectures.
pub open spec fn spec_classify_container(data: Seq<u8>) -> Result<ContainerKind, DecodeError> {
    if data.len() < 4 {
        Err(DecodeError::at(ErrorKind::TruncatedRecord, Stage::FatHeader, 0, 0))
    } else {
        match spec_macho_kind(data.subrange(0, 4)) {
            Some(kind) => Ok(ContainerKind::Thin(kind)),
            None => match spec_fat_kind(data.subrange(0, 4)) {
                Some(kind) => if data.len() < 8 {
                    Err(DecodeError::at(ErrorKind::TruncatedRecord, Stage::FatHeader, 0, 0))
                } else {
                    Ok(ContainerKind::Fat(kind))
                },
                None => Err(DecodeError::at(ErrorKind::NotRecognizedContainer, Stage::FatHeader, 0, 0)),
            },
        }
    }
}

/// Tells from the first bytes of a file what it is.
pub fn classify_container(data: &[u8]) -> (r: Result<ContainerKind, DecodeError>)
    ensures
        r == spec_classify_container(data@),
{
    if data.len() < 4 {
        return Err(DecodeError::new(ErrorKind::TruncatedRecord, Stage::FatHeader, 0, 0));
    }
    if magic_is(data, 0, &constants::MH_MAGIC) {
        return Ok(ContainerKind::Thin(MachOKind::Mach32BE));
    }
    if magic_is(data, 0, &constants::MH_MAGIC_64) {
        return Ok(ContainerKind::Thin(MachOKind::Mach64BE));
    }
    if magic_is(data, 0, &constants::MH_CIGAM) {
        return Ok(ContainerKind::Thin(MachOKind::Mach32LE));
    }
    if magic_is(data, 0, &constants::MH_CIGAM_64) {
        return Ok(ContainerKind::Thin(MachOKind::Mach64LE));
    }
    let kind = if magic_is(data, 0, &constants::FAT_MAGIC) {
        FatKind::Fat32BE
    } else if magic_is(data, 0, &constants::FAT_MAGIC_64) {
        FatKind::Fat64BE
    } else if magic_is(data, 0, &constants::FAT_CIGAM) {
        FatKind::Fat32LE
    } else if magic_is(data, 0, &constants::FAT_CIGAM_64) {
        FatKind::Fat64LE
    } else {
        return Err(DecodeError::new(ErrorKind::NotRecognizedContainer, Stage::FatHeader, 0, 0));
    };
    if data.len() < 8 {
        return Err(DecodeError::new(ErrorKind::TruncatedRecord, Stage::FatHeader, 0, 0));
    }
    Ok(ContainerKind::Fat(kind))
}

/// A file that is classified as fat is one whose fat header can be read,
/// and the other way round; the kind is the same.
pub proof fn lemma_fat_iff_fat_header(data: Seq<u8>)
    ensures
        spec_read_fat_header(data) is Ok <==> (spec_classify_container(data) matches Ok(
            ContainerKind::Fat(_),
        )),
        spec_read_fat_header(data) is Ok ==> spec_classify_container(data) == Ok::<
            ContainerKind,
            DecodeError,
        >(ContainerKind::Fat(spec_read_fat_header(data)->Ok_0.kind)),
{
}

/// The slices of a file: one for each entry of the table of a fat file,
/// and for any other file a single slice that starts at 0 and runs to the
/// end.
pub open spec fn spec_slices(data: Seq<u8>) -> Result<Seq<MachOSlice>, DecodeError> {
    match spec_read_fat_header(data) {
        Ok(header) => match spec_read_fat_archs(data, header) {
            Ok(archs) => Ok(Seq::new(archs.len(), |i: int| archs[i].spec_slice())),
            Err(e) => Err(e),
        },
        Err(_) => Ok(seq![MachOSlice { offset: 0, size: None }]),
    }
}

/// The slices that table entries describe.
pub fn slices_of(archs: &[FatArch]) -> (slices: Vec<MachOSlice>)
    ensures
        slices@ == Seq::new(archs@.len(), |i: int| archs@[i].spec_slice()),
{
    let mut slices: Vec<MachOSlice> = Vec::new();
    let mut i: usize = 0;
    while i < archs.len()
        invariant
            i <= archs@.len(),
            slices@.len() == i,
            forall|k: int| 0 <= k < i ==> slices@[k] == archs@[k].spec_slice(),
        decreases archs@.len() - i,
    {
        slices.push(archs[i].slice());
        i += 1;
    }
    slices
}

/// Lists the images of a file. A file without a fat header is taken for a
/// thin image; a fat file whose table is cut short is an error.
pub fn list_slices(data: &[u8]) -> (r: Result<Vec<MachOSlice>, DecodeError>)
    ensures
        vec_result_is(r, spec_slices(data@)),
{
    match read_fat_header(data) {
        Ok(header) => {
            let archs = read_fat_archs(data, &header)?;
            Ok(slices_of(archs.as_slice()))
        },
        Err(_) => {
            let mut slices: Vec<MachOSlice> = Vec::new();
            slices.push(MachOSlice { offset: 0, size: None });
            Ok(slices)
        },
    }
}

/// The entry that was chosen by its number in the table, if the table has
/// such an entry.
pub fn select_arch(archs: &[FatArch], index: usize) -> (chosen: Option<FatArch>)
    ensures
        index < archs@.len() ==> chosen == Some(archs@[index as int]),
        index >= archs@.len() ==> chosen is None,
{
    if index < archs.len() {
        Some(archs[index])
    } else {
        None
    }
}

} // verus!
