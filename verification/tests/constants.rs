use moscope::macho::constants::{
    cpu_subtype_name, cpu_type_name, decode_arm64_subtype, display_arch, filetype_name, CPU_ARCH_ABI64, CPU_SUBTYPE_ARM64E,
    CPU_SUBTYPE_ARM64_ALL, CPU_SUBTYPE_ARM64_V8, CPU_SUBTYPE_ARM_V7, CPU_SUBTYPE_PTRAUTH_ABI,
    CPU_TYPE_ARM, CPU_TYPE_ARM64, CPU_TYPE_X86, CPU_TYPE_X86_64, MH_DYLIB, MH_EXECUTE,
};

#[test]
fn cpu_type_name_ignores_abi64_flag() {
    let cputype = CPU_TYPE_X86 | CPU_ARCH_ABI64;
    assert_eq!(cpu_type_name(cputype), "x86");
}

#[test]
fn cpu_type_name_unknown() {
    assert_eq!(cpu_type_name(0xBEEF), "Unknown");
}

#[test]
fn cpu_subtype_arm64e_detected_via_ptrauth() {
    let cputype = CPU_TYPE_ARM64;
    let cpusubtype = CPU_SUBTYPE_ARM64E | CPU_SUBTYPE_PTRAUTH_ABI;

    assert_eq!(cpu_subtype_name(cputype, cpusubtype), "arm64e");
}

#[test]
fn cpu_subtype_name_arm64_v8_detected() {
    let cputype = CPU_TYPE_ARM64;
    let cpusubtype = CPU_SUBTYPE_ARM64_V8;

    assert_eq!(cpu_subtype_name(cputype, cpusubtype), "arm64");
}

#[test]
fn cpu_subtype_arm_v7_detected() {
    let cputype = CPU_TYPE_ARM;
    let cpusubtype = CPU_SUBTYPE_ARM_V7;

    assert_eq!(cpu_subtype_name(cputype, cpusubtype), "ARMv7");
}

#[test]
fn cpu_subtype_arm64_all_detected() {
    let cputype = CPU_TYPE_ARM64;
    let cpusubtype = CPU_SUBTYPE_ARM64_ALL;

    assert_eq!(cpu_subtype_name(cputype, cpusubtype), "arm64 (ARM64_ALL)");
}

#[test]
fn cpu_subtype_arm64_unknown_subtype() {
    let cputype = CPU_TYPE_ARM64;
    let cpusubtype = 0xBEEF;

    assert_eq!(cpu_subtype_name(cputype, cpusubtype), "ARM64 (unknown subtype)");
}

#[test]
fn cpu_subtype_arm_unknown() {
    let cputype = CPU_TYPE_ARM;
    let cpusubtype = 0xBEEF;

    assert_eq!(cpu_subtype_name(cputype, cpusubtype), "ARM (unknown subtype)");
}

#[test]
fn cpu_subtype_x86_64_simple() {
    assert_eq!(cpu_subtype_name(CPU_TYPE_X86_64, 0), "x86_64");
}

#[test]
fn cpu_subtype_x86_32_simple() {
    assert_eq!(cpu_subtype_name(CPU_TYPE_X86, 0), "x86");
}

#[test]
fn cpu_subtype_unknown_cpu() {
    assert_eq!(cpu_subtype_name(0xBEEF, 0), "Unknown");
}

#[test]
fn filetype_execute() {
    assert_eq!(filetype_name(MH_EXECUTE), "Demand Paged Executable File [[MH_EXECUTE]]");
}

#[test]
fn filetype_dylib() {
    assert_eq!(filetype_name(MH_DYLIB), "Dynamically Bound Shared Library [[MH_DYLIB]]");
}

#[test]
fn filetype_unknown() {
    assert_eq!(filetype_name(0xFFFFFFFF), "Unknown File Type");
}

#[test]
fn cpu_subtype_ptrauth_wins_over_every_variant() {
    for variant in [0, 1, 2, 3, 0xBEEF, 0x00FF_FFFF, 0x7F00_0000, 0x7FFF_FFFF] {
        assert_eq!(cpu_subtype_name(CPU_TYPE_ARM64, variant | CPU_SUBTYPE_PTRAUTH_ABI), "arm64e");
    }
}

#[test]
fn cpu_subtype_capability_bits_are_masked() {
    assert_eq!(cpu_subtype_name(CPU_TYPE_ARM64, 0x0100_0001), "arm64");
    assert_eq!(cpu_subtype_name(CPU_TYPE_ARM, 0x0200_000D), "ARMv8");
}

#[test]
fn cpu_type_name_known_families() {
    assert_eq!(cpu_type_name(CPU_TYPE_ARM64), "ARM");
    assert_eq!(cpu_type_name(0x12), "PowerPC");
    assert_eq!(cpu_type_name(0x18), "RISC-V");
}

#[test]
fn display_arch_names() {
    assert_eq!(display_arch(CPU_TYPE_ARM64, 0), ("ARM", "arm64"));
    assert_eq!(display_arch(CPU_TYPE_ARM64, 1), ("ARM", "arm64"));
    assert_eq!(display_arch(CPU_TYPE_ARM64, 2), ("ARM", "arm64 (unknown subtype)"));
    assert_eq!(display_arch(CPU_TYPE_ARM64, 2 | CPU_SUBTYPE_PTRAUTH_ABI), ("ARM", "arm64e"));
    assert_eq!(display_arch(CPU_TYPE_X86_64, 3), ("x86", "x86_64"));
    assert_eq!(display_arch(CPU_TYPE_ARM, 9), ("ARM", "ARMv7"));
    assert_eq!(display_arch(0x12, 0), ("PowerPC", "Unknown"));
    assert_eq!(decode_arm64_subtype(0x0100_0000), "arm64");
    assert_eq!(decode_arm64_subtype(-1), "arm64e");
}
