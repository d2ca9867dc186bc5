//! The numbers and names of the Mach-O format, and the tables that turn CPU
//! types, subtypes and file types into text.

use vstd::prelude::*;

verus! {

// Magic numbers, as the bytes stand in the file

/// Thin image, 32-bit, big-endian.
pub const MH_MAGIC: [u8; 4] = [0xFE, 0xED, 0xFA, 0xCE];

/// Thin image, 32-bit, little-endian.
pub const MH_CIGAM: [u8; 4] = [0xCE, 0xFA, 0xED, 0xFE];

/// Thin image, 64-bit, big-endian.
pub const MH_MAGIC_64: [u8; 4] = [0xFE, 0xED, 0xFA, 0xCF];

/// Thin image, 64-bit, little-endian.
pub const MH_CIGAM_64: [u8; 4] = [0xCF, 0xFA, 0xED, 0xFE];

/// Fat container with 32-bit table entries, big-endian.
pub const FAT_MAGIC: [u8; 4] = [0xCA, 0xFE, 0xBA, 0xBE];

/// Fat container with 32-bit table entries, little-endian.
pub const FAT_CIGAM: [u8; 4] = [0xBE, 0xBA, 0xFE, 0xCA];

/// Fat container with 64-bit table entries, big-endian.
pub const FAT_MAGIC_64: [u8; 4] = [0xCA, 0xFE, 0xBA, 0xBF];

/// Fat container with 64-bit table entries, little-endian.
pub const FAT_CIGAM_64: [u8; 4] = [0xBF, 0xBA, 0xFE, 0xCA];

// Sizes of the fixed records, in bytes

pub const FAT_HEADER_SIZE: usize = 8;

pub const FAT_ARCH32_SIZE: usize = 20;

pub const FAT_ARCH64_SIZE: usize = 32;

pub const MACH_HEADER32_SIZE: usize = 28;

pub const MACH_HEADER64_SIZE: usize = 32;

pub const LOAD_COMMAND_HEADER_SIZE: usize = 8;

pub const SEGMENT_COMMAND32_SIZE: usize = 56;

pub const SEGMENT_COMMAND64_SIZE: usize = 72;

pub const SECTION32_SIZE: usize = 68;

pub const SECTION64_SIZE: usize = 80;

pub const DYLIB_COMMAND_SIZE: usize = 24;

pub const RPATH_COMMAND_SIZE: usize = 12;

pub const SYMTAB_COMMAND_SIZE: usize = 24;

pub const DYSYMTAB_COMMAND_SIZE: usize = 80;

pub const NLIST32_SIZE: usize = 12;

pub const NLIST64_SIZE: usize = 16;

// CPU types

/// Set in a CPU type whose ABI is 64-bit.
pub const CPU_ARCH_ABI64: i32 = 0x0100_0000;

/// Set in a CPU type whose ABI is 64-bit with 32-bit pointers.
pub const CPU_ARCH_ABI64_32: i32 = 0x0200_0000;

pub const CPU_TYPE_VAX: i32 = 0x00000001;

pub const CPU_TYPE_ROMP: i32 = 0x00000002;

pub const CPU_TYPE_NS32032: i32 = 0x00000004;

pub const CPU_TYPE_NS32332: i32 = 0x00000005;

pub const CPU_TYPE_MC680X0: i32 = 0x00000006;

pub const CPU_TYPE_X86: i32 = 0x00000007;

pub const CPU_TYPE_MIPS: i32 = 0x00000008;

pub const CPU_TYPE_NS32352: i32 = 0x00000009;

pub const CPU_TYPE_HPPA: i32 = 0x0000000B;

pub const CPU_TYPE_ARM: i32 = 0x0000000C;

pub const CPU_TYPE_MC88000: i32 = 0x0000000D;

pub const CPU_TYPE_SPARC: i32 = 0x0000000E;

pub const CPU_TYPE_I860_BIG: i32 = 0x0000000F;

pub const CPU_TYPE_I860_LITTLE: i32 = 0x00000010;

pub const CPU_TYPE_RS6000: i32 = 0x00000011;

pub const CPU_TYPE_POWERPC: i32 = 0x00000012;

pub const CPU_TYPE_RISCV: i32 = 0x00000018;

/// `CPU_TYPE_X86` with `CPU_ARCH_ABI64`.
pub const CPU_TYPE_X86_64: i32 = 0x0100_0007;

/// `CPU_TYPE_ARM` with `CPU_ARCH_ABI64`.
pub const CPU_TYPE_ARM64: i32 = 0x0100_000C;

// CPU subtypes

/// The high byte of a subtype holds capability flags: all bits of `0xff00_0000`.
pub const CPU_SUBTYPE_MASK: i32 = -0x0100_0000;

/// The pointer-authentication ABI flag: the top bit, `0x8000_0000`.
pub const CPU_SUBTYPE_PTRAUTH_ABI: i32 = i32::MIN;

pub const CPU_SUBTYPE_ARM_ALL: i32 = 0x00000000;

pub const CPU_SUBTYPE_ARM_A500: i32 = 0x00000001;

pub const CPU_SUBTYPE_ARM_A500_2: i32 = 0x00000002;

pub const CPU_SUBTYPE_ARM_A440: i32 = 0x00000003;

pub const CPU_SUBTYPE_ARM_M4: i32 = 0x00000004;

pub const CPU_SUBTYPE_ARM_V4T: i32 = 0x00000005;

pub const CPU_SUBTYPE_ARM_V6: i32 = 0x00000006;

pub const CPU_SUBTYPE_ARM_V5TEJ: i32 = 0x00000007;

pub const CPU_SUBTYPE_ARM_XSCALE: i32 = 0x00000008;

pub const CPU_SUBTYPE_ARM_V7: i32 = 0x00000009;

pub const CPU_SUBTYPE_ARM_V7F: i32 = 0x0000000A;

pub const CPU_SUBTYPE_ARM_V7S: i32 = 0x0000000B;

pub const CPU_SUBTYPE_ARM_V7K: i32 = 0x0000000C;

pub const CPU_SUBTYPE_ARM_V8: i32 = 0x0000000D;

pub const CPU_SUBTYPE_ARM_V6M: i32 = 0x0000000E;

pub const CPU_SUBTYPE_ARM_V7M: i32 = 0x0000000F;

pub const CPU_SUBTYPE_ARM_V7EM: i32 = 0x00000010;

pub const CPU_SUBTYPE_ARM64_ALL: i32 = 0x00000000;

pub const CPU_SUBTYPE_ARM64_V8: i32 = 0x00000001;

pub const CPU_SUBTYPE_ARM64E: i32 = 0x00000002;

pub const CPU_SUBTYPE_X86_ALL: i32 = 0x00000003;

pub const CPU_SUBTYPE_X86_486: i32 = 0x00000004;

pub const CPU_SUBTYPE_X86_486SX: i32 = 0x00000084;

pub const CPU_SUBTYPE_X86_PENTIUM_M5: i32 = 0x00000056;

pub const CPU_SUBTYPE_X86_CELERON: i32 = 0x00000067;

pub const CPU_SUBTYPE_X86_CELERON_MOBILE: i32 = 0x00000077;

pub const CPU_SUBTYPE_X86_PENTIUM_3: i32 = 0x00000008;

pub const CPU_SUBTYPE_X86_PENTIUM_3_M: i32 = 0x00000018;

pub const CPU_SUBTYPE_X86_PENTIUM_3_XEON: i32 = 0x00000028;

pub const CPU_SUBTYPE_X86_PENTIUM_4: i32 = 0x0000000A;

pub const CPU_SUBTYPE_X86_ITANIUM: i32 = 0x0000000B;

pub const CPU_SUBTYPE_X86_ITANIUM_2: i32 = 0x0000001B;

pub const CPU_SUBTYPE_X86_XEON: i32 = 0x0000000C;

pub const CPU_SUBTYPE_X86_XEON_MP: i32 = 0x0000001C;

// File types

pub const MH_OBJECT: u32 = 0x00000001;

pub const MH_EXECUTE: u32 = 0x00000002;

pub const MH_FVMLIB: u32 = 0x00000003;

pub const MH_CORE: u32 = 0x00000004;

pub const MH_PRELOAD: u32 = 0x00000005;

pub const MH_DYLIB: u32 = 0x00000006;

pub const MH_DYLINKER: u32 = 0x00000007;

pub const MH_BUNDLE: u32 = 0x00000008;

pub const MH_DYLIB_STUB: u32 = 0x00000009;

pub const MH_DSYM: u32 = 0x0000000A;

pub const MH_KEXT_BUNDLE: u32 = 0x0000000B;

pub const MH_FILESET: u32 = 0x0000000C;

// Header flags, one bit each

pub const MH_NOUNDEFS: u32 = 0x0000_0001;

pub const MH_INCRLINK: u32 = 0x0000_0002;

pub const MH_DYLDLINK: u32 = 0x0000_0004;

pub const MH_BINDATLOAD: u32 = 0x0000_0008;

pub const MH_PREBOUND: u32 = 0x0000_0010;

pub const MH_SPLIT_SEGS: u32 = 0x0000_0020;

pub const MH_LAZY_INIT: u32 = 0x0000_0040;

pub const MH_TWOLEVEL: u32 = 0x0000_0080;

pub const MH_FORCE_FLAT: u32 = 0x0000_0100;

pub const MH_NOMULTIDEFS: u32 = 0x0000_0200;

pub const MH_NOFIXPREBINDING: u32 = 0x0000_0400;

pub const MH_PREBINDABLE: u32 = 0x0000_0800;

pub const MH_ALLMODSBOUND: u32 = 0x0000_1000;

pub const MH_SUBSECTIONS_VIA_SYMBOLS: u32 = 0x0000_2000;

pub const MH_CANONICAL: u32 = 0x0000_4000;

pub const MH_WEAK_DEFINES: u32 = 0x0000_8000;

pub const MH_BINDS_TO_WEAK: u32 = 0x0001_0000;

pub const MH_ALLOW_STACK_EXECUTION: u32 = 0x0002_0000;

pub const MH_ROOT_SAFE: u32 = 0x0004_0000;

pub const MH_SETUID_SAFE: u32 = 0x0008_0000;

pub const MH_NO_REEXPORTED_DYLIBS: u32 = 0x0010_0000;

pub const MH_PIE: u32 = 0x0020_0000;

pub const MH_DEAD_STRIPPABLE_DYLIB: u32 = 0x0040_0000;

pub const MH_HAS_TLV_DESCRIPTORS: u32 = 0x0080_0000;

pub const MH_NO_HEAP_EXECUTION: u32 = 0x0100_0000;

pub const MH_APP_EXTENSION_SAFE: u32 = 0x0200_0000;

pub const MH_NLIST_OUTOFSYNC_WITH_DYLDINFO: u32 = 0x0400_0000;

pub const MH_SIM_SUPPORT: u32 = 0x0800_0000;

pub const MH_IMPLICIT_PAGEZERO: u32 = 0x1000_0000;

pub const MH_DYLIB_IN_CACHE: u32 = 0x8000_0000;

// Section flags: the low byte is the type, the rest are attributes

pub const SECTION_TYPE: u32 = 0x000000FF;

pub const SECTION_ATTRIBUTES: u32 = 0xFFFFFF00;

pub const S_REGULAR: u32 = 0x00000000;

pub const S_ZEROFILL: u32 = 0x00000001;

pub const S_CSTRING_LITERALS: u32 = 0x00000002;

pub const S_4BYTE_LITERALS: u32 = 0x00000003;

pub const S_8BYTE_LITERALS: u32 = 0x00000004;

pub const S_LITERAL_POINTERS: u32 = 0x00000005;

pub const S_NON_LAZY_SYMBOL_POINTERS: u32 = 0x00000006;

pub const S_LAZY_SYMBOL_POINTERS: u32 = 0x00000007;

pub const S_SYMBOL_STUBS: u32 = 0x00000008;

pub const S_MOD_INIT_FUNC_POINTERS: u32 = 0x00000009;

pub const S_MOD_TERM_FUNC_POINTERS: u32 = 0x0000000A;

pub const S_COALESCED: u32 = 0x0000000B;

pub const S_GB_ZEROFILL: u32 = 0x0000000C;

pub const S_INTERPOSING: u32 = 0x0000000D;

pub const S_16BYTE_LITERALS: u32 = 0x0000000E;

pub const S_DTRACE_DOF: u32 = 0x0000000F;

pub const S_LAZY_DYLUB_SYMBOL_POINTERS: u32 = 0x00000010;

pub const SECTION_ATTRIBUTES_USR: u32 = 0xFF000000;

pub const S_ATTR_PURE_INSTRUCTIONS: u32 = 0x80000000;

pub const S_ATTR_NO_TOC: u32 = 0x40000000;

pub const S_ATTR_STRIP_STATIC_SYMS: u32 = 0x20000000;

pub const S_ATTR_NO_DEAD_STRIP: u32 = 0x10000000;

pub const S_ATTR_LIVE_SUPPORT: u32 = 0x08000000;

pub const S_ATTR_SELF_MODIFYING_CODE: u32 = 0x04000000;

pub const S_ATTR_DEBUG: u32 = 0x02000000;

pub const SECTION_ATTRIBUTES_SYS: u32 = 0x00FFFF00;

pub const S_ATTR_SOME_INSTRUCTIONS: u32 = 0x00000400;

pub const S_ATTR_EXT_RELOC: u32 = 0x00000200;

pub const S_ATTR_LOC_RELOC: u32 = 0x00000100;

// Segment names, NUL-padded to sixteen bytes

/// `__PAGEZERO`
pub const SEG_PAGEZERO: [u8; 16] = [0x5F, 0x5F, 0x50, 0x41, 0x47, 0x45, 0x5A, 0x45, 0x52, 0x4F, 0, 0, 0, 0, 0, 0];

/// `__TEXT`
pub const SEG_TEXT: [u8; 16] = [0x5F, 0x5F, 0x54, 0x45, 0x58, 0x54, 0, 0, 0, 0, 0, 0, 0, 0, 0, 0];

/// `__DATA`
pub const SEG_DATA: [u8; 16] = [0x5F, 0x5F, 0x44, 0x41, 0x54, 0x41, 0, 0, 0, 0, 0, 0, 0, 0, 0, 0];

/// `__DATA_CONST`
pub const SEG_DATA_CONST: [u8; 16] = [0x5F, 0x5F, 0x44, 0x41, 0x54, 0x41, 0x5F, 0x43, 0x4F, 0x4E, 0x53, 0x54, 0, 0, 0, 0];

/// `__OBJ`
pub const SEG_OBJC: [u8; 16] = [0x5F, 0x5F, 0x4F, 0x42, 0x4A, 0, 0, 0, 0, 0, 0, 0, 0, 0, 0, 0];

/// `__ICON`
pub const SEG_ICON: [u8; 16] = [0x5F, 0x5F, 0x49, 0x43, 0x4F, 0x4E, 0, 0, 0, 0, 0, 0, 0, 0, 0, 0];

/// `__LINKEDIT`
pub const SEG_LINKEDIT: [u8; 16] = [0x5F, 0x5F, 0x4C, 0x49, 0x4E, 0x4B, 0x45, 0x44, 0x49, 0x54, 0, 0, 0, 0, 0, 0];

/// `__UNIXSTACK`
pub const SEG_UNIXSTACK: [u8; 16] = [0x5F, 0x5F, 0x55, 0x4E, 0x49, 0x58, 0x53, 0x54, 0x41, 0x43, 0x4B, 0, 0, 0, 0, 0];

/// `__IMPORT`
pub const SEG_IMPORT: [u8; 16] = [0x5F, 0x5F, 0x49, 0x4D, 0x50, 0x4F, 0x52, 0x54, 0, 0, 0, 0, 0, 0, 0, 0];

/// `__AUTH`
pub const SEG_AUTH: [u8; 16] = [0x5F, 0x5F, 0x41, 0x55, 0x54, 0x48, 0, 0, 0, 0, 0, 0, 0, 0, 0, 0];

/// `__AUTH_CONST`
pub const SEG_AUTH_CONST: [u8; 16] = [0x5F, 0x5F, 0x41, 0x55, 0x54, 0x48, 0x5F, 0x43, 0x4F, 0x4E, 0x53, 0x54, 0, 0, 0, 0];

// Section names, NUL-padded to sixteen bytes

/// `__text`
pub const SECT_TEXT: [u8; 16] = [0x5F, 0x5F, 0x74, 0x65, 0x78, 0x74, 0, 0, 0, 0, 0, 0, 0, 0, 0, 0];

/// `__stubs`
pub const SECT_STUBS: [u8; 16] = [0x5F, 0x5F, 0x73, 0x74, 0x75, 0x62, 0x73, 0, 0, 0, 0, 0, 0, 0, 0, 0];

/// `__objc_stubs`
pub const SECT_OBJC_STUBS: [u8; 16] = [0x5F, 0x5F, 0x6F, 0x62, 0x6A, 0x63, 0x5F, 0x73, 0x74, 0x75, 0x62, 0x73, 0, 0, 0, 0];

/// `__init_offsets`
pub const SECT_INIT_OFFSETS: [u8; 16] = [0x5F, 0x5F, 0x69, 0x6E, 0x69, 0x74, 0x5F, 0x6F, 0x66, 0x66, 0x73, 0x65, 0x74, 0x73, 0, 0];

/// `__gcc_except_tab`
pub const SECT_GCC_EXCEPT_TAB: [u8; 16] = [0x5F, 0x5F, 0x67, 0x63, 0x63, 0x5F, 0x65, 0x78, 0x63, 0x65, 0x70, 0x74, 0x5F, 0x74, 0x61, 0x62];

/// `__const`
pub const SECT_CONST: [u8; 16] = [0x5F, 0x5F, 0x63, 0x6F, 0x6E, 0x73, 0x74, 0, 0, 0, 0, 0, 0, 0, 0, 0];

/// `__cstring`
pub const SECT_CSTRING: [u8; 16] = [0x5F, 0x5F, 0x63, 0x73, 0x74, 0x72, 0x69, 0x6E, 0x67, 0, 0, 0, 0, 0, 0, 0];

/// `__objc_methname`
pub const SECT_OBJC_METHNAME: [u8; 16] = [0x5F, 0x5F, 0x6F, 0x62, 0x6A, 0x63, 0x5F, 0x6D, 0x65, 0x74, 0x68, 0x6E, 0x61, 0x6D, 0x65, 0];

/// `__info_plist`
pub const SECT_INFO_PLIST: [u8; 16] = [0x5F, 0x5F, 0x69, 0x6E, 0x66, 0x6F, 0x5F, 0x70, 0x6C, 0x69, 0x73, 0x74, 0, 0, 0, 0];

/// `__unwind_info`
pub const SECT_UNWIND_INFO: [u8; 16] = [0x5F, 0x5F, 0x75, 0x6E, 0x77, 0x69, 0x6E, 0x64, 0x5F, 0x69, 0x6E, 0x66, 0x6F, 0, 0, 0];

/// `__eh_frame`
pub const SECT_EH_FRAME: [u8; 16] = [0x5F, 0x5F, 0x65, 0x68, 0x5F, 0x66, 0x72, 0x61, 0x6D, 0x65, 0, 0, 0, 0, 0, 0];

/// `__data`
pub const SECT_DATA: [u8; 16] = [0x5F, 0x5F, 0x64, 0x61, 0x74, 0x61, 0, 0, 0, 0, 0, 0, 0, 0, 0, 0];

/// `__bss`
pub const SECT_BSS: [u8; 16] = [0x5F, 0x5F, 0x62, 0x73, 0x73, 0, 0, 0, 0, 0, 0, 0, 0, 0, 0, 0];

/// `__common`
pub const SECT_COMMON: [u8; 16] = [0x5F, 0x5F, 0x63, 0x6F, 0x6D, 0x6D, 0x6F, 0x6E, 0, 0, 0, 0, 0, 0, 0, 0];

/// `__got`
pub const SECT_GOT: [u8; 16] = [0x5F, 0x5F, 0x67, 0x6F, 0x74, 0, 0, 0, 0, 0, 0, 0, 0, 0, 0, 0];

/// `__cfstring`
pub const SECT_CFSTRING: [u8; 16] = [0x5F, 0x5F, 0x63, 0x66, 0x73, 0x74, 0x72, 0x69, 0x6E, 0x67, 0, 0, 0, 0, 0, 0];

/// `__objc_imageinfo`
pub const SECT_OBJC_IMAGEINFO: [u8; 16] = [0x5F, 0x5F, 0x6F, 0x62, 0x6A, 0x63, 0x5F, 0x69, 0x6D, 0x61, 0x67, 0x65, 0x69, 0x6E, 0x66, 0x6F];

/// `__objc_selrefs`
pub const SECT_OBJC_SELREFS: [u8; 16] = [0x5F, 0x5F, 0x6F, 0x62, 0x6A, 0x63, 0x5F, 0x73, 0x65, 0x6C, 0x72, 0x65, 0x66, 0x73, 0, 0];

/// `__objc_classrefs`
pub const SECT_OBJC_CLASSREFS: [u8; 16] = [0x5F, 0x5F, 0x6F, 0x62, 0x6A, 0x63, 0x5F, 0x63, 0x6C, 0x61, 0x73, 0x73, 0x72, 0x65, 0x66, 0x73];

/// `__symbol_table`
pub const SECT_OBJC_SYMBOLS: [u8; 16] = [0x5F, 0x5F, 0x73, 0x79, 0x6D, 0x62, 0x6F, 0x6C, 0x5F, 0x74, 0x61, 0x62, 0x6C, 0x65, 0, 0];

/// `__module_info`
pub const SECT_OBJC_MODULES: [u8; 16] = [0x5F, 0x5F, 0x6D, 0x6F, 0x64, 0x75, 0x6C, 0x65, 0x5F, 0x69, 0x6E, 0x66, 0x6F, 0, 0, 0];

/// `__selector_strs`
pub const SECT_OBJC_STRINGS: [u8; 16] = [0x5F, 0x5F, 0x73, 0x65, 0x6C, 0x65, 0x63, 0x74, 0x6F, 0x72, 0x5F, 0x73, 0x74, 0x72, 0x73, 0];

/// `__selector_refs`
pub const SECT_OBJC_REFS: [u8; 16] = [0x5F, 0x5F, 0x73, 0x65, 0x6C, 0x65, 0x63, 0x74, 0x6F, 0x72, 0x5F, 0x72, 0x65, 0x66, 0x73, 0];

/// `__header`
pub const SECT_ICON_HEADER: [u8; 16] = [0x5F, 0x5F, 0x68, 0x65, 0x61, 0x64, 0x65, 0x72, 0, 0, 0, 0, 0, 0, 0, 0];

/// `__tiff`
pub const SECT_ICON_TIFF: [u8; 16] = [0x5F, 0x5F, 0x74, 0x69, 0x66, 0x66, 0, 0, 0, 0, 0, 0, 0, 0, 0, 0];

/// `__la_symbol_ptr`
pub const SECT_LA_SYMBOL_PTR: [u8; 16] = [0x5F, 0x5F, 0x6C, 0x61, 0x5F, 0x73, 0x79, 0x6D, 0x62, 0x6F, 0x6C, 0x5F, 0x70, 0x74, 0x72, 0];

/// `__nl_symbol_ptr`
pub const SECT_NL_SYMBOL_PTR: [u8; 16] = [0x5F, 0x5F, 0x6E, 0x6C, 0x5F, 0x73, 0x79, 0x6D, 0x62, 0x6F, 0x6C, 0x5F, 0x70, 0x74, 0x72, 0];

/// `__auth_got`
pub const SECT_AUTH_GOT: [u8; 16] = [0x5F, 0x5F, 0x61, 0x75, 0x74, 0x68, 0x5F, 0x67, 0x6F, 0x74, 0, 0, 0, 0, 0, 0];

/// `__auth_ptr`
pub const SECT_AUTH_PTR: [u8; 16] = [0x5F, 0x5F, 0x61, 0x75, 0x74, 0x68, 0x5F, 0x70, 0x74, 0x72, 0, 0, 0, 0, 0, 0];

/// `__objc_classlist`
pub const SECT_OBJC_CLASSLIST: [u8; 16] = [0x5F, 0x5F, 0x6F, 0x62, 0x6A, 0x63, 0x5F, 0x63, 0x6C, 0x61, 0x73, 0x73, 0x6C, 0x69, 0x73, 0x74];

/// `__objc_protolist`
pub const SECT_OBJC_PROTLIST: [u8; 16] = [0x5F, 0x5F, 0x6F, 0x62, 0x6A, 0x63, 0x5F, 0x70, 0x72, 0x6F, 0x74, 0x6F, 0x6C, 0x69, 0x73, 0x74];

/// `__objc_data`
pub const SECT_OBJC_DATA: [u8; 16] = [0x5F, 0x5F, 0x6F, 0x62, 0x6A, 0x63, 0x5F, 0x64, 0x61, 0x74, 0x61, 0, 0, 0, 0, 0];

// Load commands

/// Set in the opcode of a command that the dynamic linker must understand.
pub const LC_REQ_DYLD: u32 = 0x8000_0000;

pub const LC_SEGMENT: u32 = 0x01;

pub const LC_SYMTAB: u32 = 0x02;

pub const LC_SYMSEG: u32 = 0x03;

pub const LC_THREAD: u32 = 0x04;

pub const LC_UNIXTHREAD: u32 = 0x05;

pub const LC_LOADFVMLIB: u32 = 0x06;

pub const LC_IDFVMLIB: u32 = 0x07;

pub const LC_IDENT: u32 = 0x08;

pub const LC_FVMFILE: u32 = 0x09;

pub const LC_PREPAGE: u32 = 0x0A;

pub const LC_DSYMTAB: u32 = 0x0B;

/// The dynamic symbol table, under its usual name.
pub const LC_DYSYMTAB: u32 = 0x0B;

pub const LC_LOAD_DYLIB: u32 = 0x0C;

pub const LC_ID_DYLIB: u32 = 0x0D;

pub const LC_LOAD_DYLINKER: u32 = 0x0E;

pub const LC_ID_DYLINKER: u32 = 0x0F;

pub const LC_PREBOUND_DYLIB: u32 = 0x10;

pub const LC_ROUTINES: u32 = 0x11;

pub const LC_SUB_FRAMEWORK: u32 = 0x12;

pub const LC_SUB_UMBRELLA: u32 = 0x13;

pub const LC_SUB_CLIENT: u32 = 0x14;

pub const LC_SUB_LIBRARY: u32 = 0x15;

pub const LC_TWOLEVEL_HINTS: u32 = 0x16;

pub const LC_PREBIND_CKSUM: u32 = 0x17;

pub const LC_LOAD_WEAK_DYLIB: u32 = 0x18;

pub const LC_SEGMENT_64: u32 = 0x19;

pub const LC_ROUTINES_64: u32 = 0x1A;

pub const LC_UUID: u32 = 0x1B;

pub const LC_RPATH: u32 = 0x1C;

pub const LC_CODE_SIGNATURE: u32 = 0x1D;

pub const LC_SEGMENT_SPLIT_INFO: u32 = 0x1E;

pub const LC_REEXPORT_DYLIB: u32 = 0x1F;

pub const LC_LAZY_LOAD_DYLIB: u32 = 0x20;

pub const LC_ENCRYPTION_INFO: u32 = 0x21;

pub const LC_DYLD_INFO: u32 = 0x22;

pub const LC_DYLD_INFO_ONLY: u32 = 0x22;

pub const LC_LOAD_UPWARD_DYLIB: u32 = 0x23;

pub const LC_VERSION_MIN_MACOSX: u32 = 0x24;

pub const LC_VERSION_MIN_IPHONEOS: u32 = 0x25;

pub const LC_FUNCTION_STARTS: u32 = 0x26;

pub const LC_DYLD_ENVIRONMENT: u32 = 0x27;

pub const LC_MAIN: u32 = 0x28;

pub const LC_DATA_IN_CODE: u32 = 0x29;

pub const LC_SOURCE_VERSION: u32 = 0x2A;

pub const LC_DYLIB_CODE_SIGN_DRS: u32 = 0x2B;

pub const LC_ENCRYPTION_INFO_64: u32 = 0x2C;

pub const LC_LINKER_OPTION: u32 = 0x2D;

pub const LC_LINKER_OPTIMIZATION_HINT: u32 = 0x2E;

pub const LC_VERSION_MIN_TVOS: u32 = 0x2F;

pub const LC_VERSION_MIN_WATCHOS: u32 = 0x30;

pub const LC_NOTE: u32 = 0x31;

pub const LC_BUILD_VERSION: u32 = 0x32;

pub const LC_DYLD_EXPORTS_TRIE: u32 = 0x33;

pub const LC_DYLD_CHAINED_FIXUPS: u32 = 0x34;

pub const LC_FILESET_ENTRY: u32 = 0x35;

pub const LC_ATOM_INFO: u32 = 0x36;

pub const LC_FUNCTION_VARIANTS: u32 = 0x37;

pub const LC_FUNCTION_VARIANT_FIXED: u32 = 0x38;

pub const LC_TARGET_TRIPLE: u32 = 0x39;

// Symbol table entries: the bit fields of `n_type`

/// Any of these bits set: a debugging entry.
pub const N_STAB: u8 = 0xE0;

/// Private external.
pub const N_PEXT: u8 = 0x10;

/// The bits that hold the type.
pub const N_TYPE: u8 = 0x0E;

/// External.
pub const N_EXT: u8 = 0x01;

/// Undefined.
pub const N_UNDF: u8 = 0x00;

/// Absolute.
pub const N_ABS: u8 = 0x02;

/// Defined in the section `n_sect`.
pub const N_SECT: u8 = 0x0E;

/// Prebound undefined.
pub const N_PBUD: u8 = 0x0C;

/// Indirect.
pub const N_INDR: u8 = 0x0A;

/// The section index that stands for "no section".
pub const NO_SECT: u8 = 0;

// Indirect symbol table: entries that name no symbol

pub const INDIRECT_SYMBOL_LOCAL: u32 = 0x8000_0000;

pub const INDIRECT_SYMBOL_ABS: u32 = 0x4000_0000;

/// The family of a CPU type: the 64-bit ABI flag is left out of account.
pub open spec fn spec_cpu_type_name(cputype: i32) -> Seq<char> {
    match cputype & !CPU_ARCH_ABI64 {
        CPU_TYPE_X86 => "x86"@,
        CPU_TYPE_ARM => "ARM"@,
        CPU_TYPE_POWERPC => "PowerPC"@,
        CPU_TYPE_RISCV => "RISC-V"@,
        _ => "Unknown"@,
    }
}

/// Names the family of a CPU type, whether or not its ABI is 64-bit.
pub fn cpu_type_name(cputype: i32) -> (name: &'static str)
    ensures
        name@ == spec_cpu_type_name(cputype),
{
    match cputype & !CPU_ARCH_ABI64 {
        CPU_TYPE_X86 => "x86",
        CPU_TYPE_ARM => "ARM",
        CPU_TYPE_POWERPC => "PowerPC",
        CPU_TYPE_RISCV => "RISC-V",
        _ => "Unknown",
    }
}

/// The name of a CPU subtype. On 64-bit ARM the pointer-authentication flag
/// decides alone; otherwise the capability bits are masked off and the
/// variant is looked up.
pub open spec fn spec_cpu_subtype_name(cputype: i32, cpusubtype: i32) -> Seq<char> {
    match cputype {
        CPU_TYPE_ARM64 => {
            if cpusubtype & CPU_SUBTYPE_PTRAUTH_ABI != 0 {
                "arm64e"@
            } else {
                match cpusubtype & !CPU_SUBTYPE_MASK {
                    CPU_SUBTYPE_ARM64_V8 => "arm64"@,
                    CPU_SUBTYPE_ARM64_ALL => "arm64 (ARM64_ALL)"@,
                    _ => "ARM64 (unknown subtype)"@,
                }
            }
        },
        CPU_TYPE_ARM => {
            match cpusubtype & !CPU_SUBTYPE_MASK {
                CPU_SUBTYPE_ARM_V7 => "ARMv7"@,
                CPU_SUBTYPE_ARM_V8 => "ARMv8"@,
                _ => "ARM (unknown subtype)"@,
            }
        },
        CPU_TYPE_X86_64 => "x86_64"@,
        CPU_TYPE_X86 => "x86"@,
        _ => "Unknown"@,
    }
}

/// Names a CPU subtype of the given CPU type.
pub fn cpu_subtype_name(cputype: i32, cpusubtype: i32) -> (name: &'static str)
    ensures
        name@ == spec_cpu_subtype_name(cputype, cpusubtype),
{
    match cputype {
        CPU_TYPE_ARM64 => {
            if cpusubtype & CPU_SUBTYPE_PTRAUTH_ABI != 0 {
                "arm64e"
            } else {
                match cpusubtype & !CPU_SUBTYPE_MASK {
                    CPU_SUBTYPE_ARM64_V8 => "arm64",
                    CPU_SUBTYPE_ARM64_ALL => "arm64 (ARM64_ALL)",
                    _ => "ARM64 (unknown subtype)",
                }
            }
        },
        CPU_TYPE_ARM => {
            match cpusubtype & !CPU_SUBTYPE_MASK {
                CPU_SUBTYPE_ARM_V7 => "ARMv7",
                CPU_SUBTYPE_ARM_V8 => "ARMv8",
                _ => "ARM (unknown subtype)",
            }
        },
        CPU_TYPE_X86_64 => "x86_64",
        CPU_TYPE_X86 => "x86",
        _ => "Unknown",
    }
}

/// On 64-bit ARM a subtype with the pointer-authentication flag is `arm64e`,
/// whatever its other bits are.
pub proof fn lemma_ptrauth_flag_names_arm64e(other_bits: i32)
    ensures
        spec_cpu_subtype_name(CPU_TYPE_ARM64, other_bits | CPU_SUBTYPE_PTRAUTH_ABI) == "arm64e"@,
{
    assert((other_bits | CPU_SUBTYPE_PTRAUTH_ABI) & CPU_SUBTYPE_PTRAUTH_ABI != 0) by (bit_vector);
}

/// The description of a file type.
pub open spec fn spec_filetype_name(filetype: u32) -> Seq<char> {
    match filetype {
        MH_OBJECT => "Relocatable Object File [[MH_OBJECT]]"@,
        MH_EXECUTE => "Demand Paged Executable File [[MH_EXECUTE]]"@,
        MH_FVMLIB => "Fixed VM Shared Library File [[MH_FVMLIB]]"@,
        MH_CORE => "Core File [[MH_CORE]]"@,
        MH_PRELOAD => "Preloaded Executable File [[MH_PRELOAD]]"@,
        MH_DYLIB => "Dynamically Bound Shared Library [[MH_DYLIB]]"@,
        MH_DYLINKER => "Dynamic Linker Editor [[MH_DYLINKER]]"@,
        MH_BUNDLE => "Dynamically Bound Bundle File [[MH_BUNDLE]]"@,
        MH_DYLIB_STUB => "Shared Library Stub for Static Linking Only, No Section Contents [[MH_DYLIB_STUB]]"@,
        MH_DSYM => "Linking Only, No Section Contents, Companion File w/ Only Debug Sections [[MH_DSYM]]"@,
        MH_KEXT_BUNDLE => "x86_64 kext (Kernel Extension) [[MH_KEXT_BUNDLE]]"@,
        MH_FILESET => "Kernel Cache Fileset [[MH_FILESET]]"@,
        _ => "Unknown File Type"@,
    }
}

/// Describes a file type.
pub fn filetype_name(filetype: u32) -> (name: &'static str)
    ensures
        name@ == spec_filetype_name(filetype),
{
    match filetype {
        MH_OBJECT => "Relocatable Object File [[MH_OBJECT]]",
        MH_EXECUTE => "Demand Paged Executable File [[MH_EXECUTE]]",
        MH_FVMLIB => "Fixed VM Shared Library File [[MH_FVMLIB]]",
        MH_CORE => "Core File [[MH_CORE]]",
        MH_PRELOAD => "Preloaded Executable File [[MH_PRELOAD]]",
        MH_DYLIB => "Dynamically Bound Shared Library [[MH_DYLIB]]",
        MH_DYLINKER => "Dynamic Linker Editor [[MH_DYLINKER]]",
        MH_BUNDLE => "Dynamically Bound Bundle File [[MH_BUNDLE]]",
        MH_DYLIB_STUB => "Shared Library Stub for Static Linking Only, No Section Contents [[MH_DYLIB_STUB]]",
        MH_DSYM => "Linking Only, No Section Contents, Companion File w/ Only Debug Sections [[MH_DSYM]]",
        MH_KEXT_BUNDLE => "x86_64 kext (Kernel Extension) [[MH_KEXT_BUNDLE]]",
        MH_FILESET => "Kernel Cache Fileset [[MH_FILESET]]",
        _ => "Unknown File Type",
    }
}

/// The name under which a subtype of 64-bit ARM is shown in a list of
/// architectures.
pub open spec fn spec_decode_arm64_subtype(cpusubtype: i32) -> Seq<char> {
    if cpusubtype & CPU_SUBTYPE_PTRAUTH_ABI != 0 {
        "arm64e"@
    } else {
        match cpusubtype & !CPU_SUBTYPE_MASK {
            CPU_SUBTYPE_ARM64_ALL => "arm64"@,
            CPU_SUBTYPE_ARM64_V8 => "arm64"@,
            _ => "arm64 (unknown subtype)"@,
        }
    }
}

/// Names a subtype of 64-bit ARM for a list of architectures.
pub fn decode_arm64_subtype(cpusubtype: i32) -> (name: &'static str)
    ensures
        name@ == spec_decode_arm64_subtype(cpusubtype),
{
    if cpusubtype & CPU_SUBTYPE_PTRAUTH_ABI != 0 {
        "arm64e"
    } else {
        match cpusubtype & !CPU_SUBTYPE_MASK {
            CPU_SUBTYPE_ARM64_ALL | CPU_SUBTYPE_ARM64_V8 => "arm64",
            _ => "arm64 (unknown subtype)",
        }
    }
}

/// The name under which a subtype is shown in a list of architectures.
pub open spec fn spec_display_subtype(cputype: i32, cpusubtype: i32) -> Seq<char> {
    if cputype == CPU_TYPE_ARM64 {
        spec_decode_arm64_subtype(cpusubtype)
    } else {
        spec_cpu_subtype_name(cputype, cpusubtype)
    }
}

/// Names an architecture for a list: the family of the CPU and its
/// subtype.
pub fn display_arch(cputype: i32, cpusubtype: i32) -> (names: (&'static str, &'static str))
    ensures
        names.0@ == spec_cpu_type_name(cputype),
        names.1@ == spec_display_subtype(cputype, cpusubtype),
{
    let cpu = cpu_type_name(cputype);
    let subtype = if cputype == CPU_TYPE_ARM64 {
        decode_arm64_subtype(cpusubtype)
    } else {
        cpu_subtype_name(cputype, cpusubtype)
    };
    (cpu, subtype)
}

} // verus!
