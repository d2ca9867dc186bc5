//! An image of the segments as they lie in virtual memory. Files pulled out
//! of a shared cache keep their addresses but not their file offsets, so
//! sections are read from this image, by address.

use vstd::prelude::*;
use vstd::slice::slice_subrange;
use crate::macho::error::views;
use crate::macho::sections::{ParsedSection, SectionModel};
use crate::macho::segments::{ParsedSegment, SegmentModel};

verus! {

/// The lowest address of the first `n` segments that take up memory;
/// `u64::MAX` where none does.
pub open spec fn spec_min_addr(segments: Seq<SegmentModel>, n: int) -> u64
    decreases n,
{
    if n <= 0 {
        u64::MAX
    } else {
        let rest = spec_min_addr(segments, n - 1);
        let seg = segments[n - 1];
        if seg.vmsize > 0 && seg.vmaddr < rest {
            seg.vmaddr
        } else {
            rest
        }
    }
}

/// Where a segment ends in memory; an end past the address space counts as
/// `u64::MAX`.
pub open spec fn segment_end(seg: SegmentModel) -> u64 {
    if seg.vmaddr + seg.vmsize > u64::MAX {
        u64::MAX
    } else {
        (seg.vmaddr + seg.vmsize) as u64
    }
}

/// The highest end of the first `n` segments that take up memory; 0 where
/// none does.
pub open spec fn spec_max_addr(segments: Seq<SegmentModel>, n: int) -> u64
    decreases n,
{
    if n <= 0 {
        0
    } else {
        let rest = spec_max_addr(segments, n - 1);
        let seg = segments[n - 1];
        if seg.vmsize > 0 && segment_end(seg) > rest {
            segment_end(seg)
        } else {
            rest
        }
    }
}

/// The size of the image: from the lowest address to the highest end. It is
/// 0 where no segment takes up memory, and where the span is larger than
/// any buffer can be, which is `isize::MAX` bytes.
pub open spec fn spec_image_len(segments: Seq<SegmentModel>) -> int {
    let min = spec_min_addr(segments, segments.len() as int);
    let max = spec_max_addr(segments, segments.len() as int);
    if max > min && max - min <= isize::MAX {
        max - min
    } else {
        0
    }
}

/// Whether the bytes of a segment are copied into the image: it has bytes
/// in the file, they all lie inside the file, and their place in memory
/// lies inside the image.
pub open spec fn segment_is_copied(
    seg: SegmentModel,
    base: u64,
    image_len: int,
    file_len: int,
    slice_offset: u64,
) -> bool {
    &&& seg.filesize > 0
    &&& slice_offset + seg.fileoff + seg.filesize <= file_len
    &&& seg.vmaddr >= base
    &&& seg.vmaddr - base + seg.filesize <= image_len
}

/// The image after one more segment: its bytes from the file overwrite what
/// was there, or nothing changes where the segment is not copied.
pub open spec fn spec_copy_segment(
    image: Seq<u8>,
    seg: SegmentModel,
    base: u64,
    file: Seq<u8>,
    slice_offset: u64,
) -> Seq<u8> {
    if segment_is_copied(seg, base, image.len() as int, file.len() as int, slice_offset) {
        let dst = seg.vmaddr - base;
        let src = slice_offset + seg.fileoff;
        Seq::new(
            image.len(),
            |i: int|
                if dst <= i < dst + seg.filesize {
                    file[src + (i - dst)]
                } else {
                    image[i]
                },
        )
    } else {
        image
    }
}

/// The image after the first `n` segments: zeros, overwritten by one
/// segment after the other in the order of the list.
pub open spec fn spec_image_after(
    segments: Seq<SegmentModel>,
    n: int,
    file: Seq<u8>,
    slice_offset: u64,
) -> Seq<u8>
    decreases n,
{
    if n <= 0 {
        Seq::new(spec_image_len(segments) as nat, |i: int| 0u8)
    } else {
        spec_copy_segment(
            spec_image_after(segments, n - 1, file, slice_offset),
            segments[n - 1],
            spec_min_addr(segments, segments.len() as int),
            file,
            slice_offset,
        )
    }
}

/// The whole image.
pub open spec fn spec_image(segments: Seq<SegmentModel>, file: Seq<u8>, slice_offset: u64) -> Seq<u8> {
    spec_image_after(segments, segments.len() as int, file, slice_offset)
}

/// Where the bytes of a section start in an image with base address `base`.
/// A section below the base counts as starting at the base.
pub open spec fn spec_section_start(base: u64, section: SectionModel) -> int {
    if section.addr >= base {
        section.addr - base
    } else {
        0
    }
}

/// The bytes of a section in an image: none where the section is empty or
/// does not lie inside the image.
pub open spec fn spec_read_section(base: u64, image: Seq<u8>, section: SectionModel) -> Option<Seq<u8>> {
    let start = spec_section_start(base, section);
    if section.size == 0 || start + section.size > image.len() {
        None
    } else {
        Some(image.subrange(start, start + section.size))
    }
}

/// The segments of one image laid out by virtual address in one buffer.
#[derive(Debug)]
pub struct MachOMemoryImage {
    buffer: Vec<u8>,
    base_vmaddr: u64,
}

impl MachOMemoryImage {
    /// The bytes of the image; byte `i` belongs to address `base() + i`.
    pub closed spec fn bytes(&self) -> Seq<u8> {
        self.buffer@
    }

    /// The address of the first byte of the image.
    pub closed spec fn base(&self) -> u64 {
        self.base_vmaddr
    }

    /// Builds the image of `segments`. The buffer spans all segments that
    /// take up memory and starts out as zeros; then each segment with bytes
    /// in the file has them copied to its place. A segment whose bytes do
    /// not all lie inside the file, or whose place does not lie inside the
    /// image, is left out.
    pub fn new(segments: &[ParsedSegment], file_data: &[u8], slice_offset: u64) -> (image: Self)
        ensures
            image.base() == spec_min_addr(views(segments@), segments@.len() as int),
            image.bytes() == spec_image(views(segments@), file_data@, slice_offset),
            image.bytes().len() == spec_image_len(views(segments@)),
    {
        let ghost segs = views(segments@);
        let mut min_addr: u64 = u64::MAX;
        let mut max_addr: u64 = 0;
        let mut i: usize = 0;
        while i < segments.len()
            invariant
                i <= segments@.len(),
                segs == views(segments@),
                min_addr == spec_min_addr(segs, i as int),
                max_addr == spec_max_addr(segs, i as int),
            decreases segments@.len() - i,
        {
            let seg = &segments[i];
            if seg.vmsize > 0 {
                if seg.vmaddr < min_addr {
                    min_addr = seg.vmaddr;
                }
                let end = if seg.vmsize > u64::MAX - seg.vmaddr {
                    u64::MAX
                } else {
                    seg.vmaddr + seg.vmsize
                };
                if end > max_addr {
                    max_addr = end;
                }
            }
            i += 1;
        }
        let total_size: usize = if max_addr > min_addr && max_addr - min_addr <= isize::MAX as u64 {
            (max_addr - min_addr) as usize
        } else {
            0
        };
        let mut buffer: Vec<u8> = vec![0u8; total_size];
        let mut j: usize = 0;
        while j < segments.len()
            invariant
                j <= segments@.len(),
                segs == views(segments@),
                min_addr == spec_min_addr(segs, segs.len() as int),
                buffer@.len() == total_size,
                total_size == spec_image_len(segs),
                buffer@ == spec_image_after(segs, j as int, file_data@, slice_offset),
            decreases segments@.len() - j,
        {
            let seg = &segments[j];
            copy_segment(&mut buffer, seg, min_addr, file_data, slice_offset);
            j += 1;
        }
        MachOMemoryImage { buffer, base_vmaddr: min_addr }
    }

    /// The bytes of `section`, read at its address. There are none where
    /// the section is empty or reaches past the end of the image; a section
    /// whose address lies below the image is read from the base.
    pub fn read_section(&self, section: &ParsedSection) -> (bytes: Option<&[u8]>)
        ensures
            (match spec_read_section(self.base(), self.bytes(), section@) {
                Some(expected) => bytes is Some && bytes->Some_0@ == expected,
                None => bytes is None,
            }),
    {
        if section.size == 0 {
            return None;
        }
        let start: u64 = if section.addr >= self.base_vmaddr {
            section.addr - self.base_vmaddr
        } else {
            0
        };
        let len = self.buffer.len() as u64;
        if start > len || len - start < section.size {
            return None;
        }
        let first: usize = start as usize;
        let end: usize = first + section.size as usize;
        Some(slice_subrange(self.buffer.as_slice(), first, end))
    }
}

/// Copies the bytes of one segment to their place in the image, or leaves
/// the image as it is where the segment is not to be copied.
fn copy_segment(
    buffer: &mut Vec<u8>,
    seg: &ParsedSegment,
    base: u64,
    file_data: &[u8],
    slice_offset: u64,
)
    ensures
        final(buffer)@ == spec_copy_segment(old(buffer)@, seg@, base, file_data@, slice_offset),
{
    let image_len = buffer.len() as u64;
    let file_len = file_data.len() as u64;
    if seg.filesize == 0 || seg.vmaddr < base {
        return ;
    }
    if slice_offset > file_len || seg.fileoff > file_len - slice_offset || seg.filesize > file_len
        - slice_offset - seg.fileoff {
        return ;
    }
    let vm_offset: u64 = seg.vmaddr - base;
    if vm_offset > image_len || seg.filesize > image_len - vm_offset {
        return ;
    }
    let dst: usize = vm_offset as usize;
    let src: usize = (slice_offset + seg.fileoff) as usize;
    let count: usize = seg.filesize as usize;
    let mut k: usize = 0;
    while k < count
        invariant
            k <= count,
            dst + count <= buffer@.len() <= usize::MAX,
            src + count <= file_data@.len() <= usize::MAX,
            buffer@.len() == old(buffer)@.len(),
            forall|i: int|
                0 <= i < buffer@.len() ==> buffer@[i] == if dst <= i < dst + k {
                    file_data@[src + (i - dst)]
                } else {
                    old(buffer)@[i]
                },
        decreases count - k,
    {
        buffer[dst + k] = file_data[src + k];
        k += 1;
    }
}

/// A section that starts at or beyond the end of the image has no bytes in
/// it.
pub proof fn lemma_section_beyond_image_is_none(base: u64, image: Seq<u8>, section: SectionModel)
    requires
        section.addr >= base + image.len(),
    ensures
        spec_read_section(base, image, section) is None,
{
}

/// A section that is read lies inside the image, whole, and is not empty.
pub proof fn lemma_section_read_is_inside(base: u64, image: Seq<u8>, section: SectionModel)
    requires
        spec_read_section(base, image, section) is Some,
    ensures
        section.size > 0,
        spec_read_section(base, image, section)->Some_0.len() == section.size,
        spec_section_start(base, section) + section.size <= image.len(),
{
}

/// Whether the places of two segments in memory have a byte in common,
/// as far as their bytes from the file reach.
pub open spec fn copies_overlap(a: SegmentModel, b: SegmentModel) -> bool {
    a.vmaddr < b.vmaddr + b.filesize && b.vmaddr < a.vmaddr + a.filesize
}

proof fn lemma_image_len(segments: Seq<SegmentModel>, n: int, file: Seq<u8>, slice_offset: u64)
    ensures
        spec_image_after(segments, n, file, slice_offset).len() == spec_image_len(segments),
    decreases n,
{
    if n > 0 {
        lemma_image_len(segments, n - 1, file, slice_offset);
    }
}

proof fn lemma_segment_stays(
    segments: Seq<SegmentModel>,
    file: Seq<u8>,
    slice_offset: u64,
    k: int,
    n: int,
)
    requires
        0 <= k < n <= segments.len(),
        segment_is_copied(
            segments[k],
            spec_min_addr(segments, segments.len() as int),
            spec_image_len(segments),
            file.len() as int,
            slice_offset,
        ),
        forall|j: int|
            k < j < n && segment_is_copied(
                #[trigger] segments[j],
                spec_min_addr(segments, segments.len() as int),
                spec_image_len(segments),
                file.len() as int,
                slice_offset,
            ) ==> !copies_overlap(segments[k], segments[j]),
    ensures
        forall|t: int|
            0 <= t < segments[k].filesize ==> #[trigger] spec_image_after(
                segments,
                n,
                file,
                slice_offset,
            )[segments[k].vmaddr - spec_min_addr(segments, segments.len() as int) + t] == file[slice_offset
                + segments[k].fileoff + t],
    decreases n - k,
{
    lemma_image_len(segments, n - 1, file, slice_offset);
    lemma_image_len(segments, n, file, slice_offset);
    if n - 1 > k {
        lemma_segment_stays(segments, file, slice_offset, k, n - 1);
    }
}

/// A segment that is copied into the image, and that no later segment
/// overwrites, stands in the image as it stands in the file.
pub proof fn lemma_segment_bytes_in_image(
    segments: Seq<SegmentModel>,
    file: Seq<u8>,
    slice_offset: u64,
    k: int,
)
    requires
        0 <= k < segments.len(),
        segment_is_copied(
            segments[k],
            spec_min_addr(segments, segments.len() as int),
            spec_image_len(segments),
            file.len() as int,
            slice_offset,
        ),
        forall|j: int|
            k < j < segments.len() && segment_is_copied(
                #[trigger] segments[j],
                spec_min_addr(segments, segments.len() as int),
                spec_image_len(segments),
                file.len() as int,
                slice_offset,
            ) ==> !copies_overlap(segments[k], segments[j]),
    ensures
        ({
            let at = segments[k].vmaddr - spec_min_addr(segments, segments.len() as int);
            let from = slice_offset + segments[k].fileoff;
            spec_image(segments, file, slice_offset).subrange(at, at + segments[k].filesize)
                == file.subrange(from, from + segments[k].filesize)
        }),
{
    let at = segments[k].vmaddr - spec_min_addr(segments, segments.len() as int);
    let from = slice_offset + segments[k].fileoff;
    lemma_segment_stays(segments, file, slice_offset, k, segments.len() as int);
    lemma_image_len(segments, segments.len() as int, file, slice_offset);
    let image = spec_image(segments, file, slice_offset);
    let in_image = image.subrange(at, at + segments[k].filesize);
    let in_file = file.subrange(from, from + segments[k].filesize);
    assert forall|t: int| 0 <= t < in_image.len() implies #[trigger] in_image[t] == in_file[t] by {
        assert(image[at + t] == file[from + t]);
    }
}

/// Reading a section by its address gives the bytes that the file holds
/// for it, where the section lies inside the bytes of a segment that is
/// copied into the image and that no later segment overwrites.
pub proof fn lemma_section_bytes_are_file_bytes(
    segments: Seq<SegmentModel>,
    file: Seq<u8>,
    slice_offset: u64,
    k: int,
    section: SectionModel,
)
    requires
        0 <= k < segments.len(),
        segment_is_copied(
            segments[k],
            spec_min_addr(segments, segments.len() as int),
            spec_image_len(segments),
            file.len() as int,
            slice_offset,
        ),
        forall|j: int|
            k < j < segments.len() && segment_is_copied(
                #[trigger] segments[j],
                spec_min_addr(segments, segments.len() as int),
                spec_image_len(segments),
                file.len() as int,
                slice_offset,
            ) ==> !copies_overlap(segments[k], segments[j]),
        section.size > 0,
        segments[k].vmaddr <= section.addr,
        section.addr + section.size <= segments[k].vmaddr + segments[k].filesize,
    ensures
        ({
            let from = slice_offset + segments[k].fileoff + (section.addr - segments[k].vmaddr);
            spec_read_section(
                spec_min_addr(segments, segments.len() as int),
                spec_image(segments, file, slice_offset),
                section,
            ) == Some(file.subrange(from, from + section.size))
        }),
{
    let base = spec_min_addr(segments, segments.len() as int);
    let image = spec_image(segments, file, slice_offset);
    let at = segments[k].vmaddr - base;
    let from = slice_offset + segments[k].fileoff;
    let skip = section.addr - segments[k].vmaddr;
    lemma_segment_bytes_in_image(segments, file, slice_offset, k);
    lemma_image_len(segments, segments.len() as int, file, slice_offset);
    let whole_image = image.subrange(at, at + segments[k].filesize);
    assert(image.subrange(at + skip, at + skip + section.size) =~= whole_image.subrange(
        skip,
        skip + section.size,
    ));
}

} // verus!
