use elf_header::error::ElfParseError;
use elf_header::header::{ElfHeader, ElfMachine, ElfType, ElfVersion};
use elf_header::ident::{EIdent, IdentClass, IdentData, IdentOSABI, IdentVersion};

/// A valid header of an x86-64 executable.
fn sample() -> Vec<u8> {
    let mut bytes: Vec<u8> = vec![0x7f, 0x45, 0x4c, 0x46, 2, 1, 1, 0, 0, 0, 0, 0, 0, 0, 0, 0];
    bytes.extend_from_slice(&[2, 0]);
    bytes.extend_from_slice(&[62, 0]);
    bytes.extend_from_slice(&[1, 0, 0, 0]);
    bytes.extend_from_slice(&[0x00, 0x10, 0x40, 0, 0, 0, 0, 0]);
    bytes.extend_from_slice(&[64, 0, 0, 0, 0, 0, 0, 0]);
    bytes.extend_from_slice(&[0, 0, 0, 0, 0, 0, 0, 0]);
    bytes.extend_from_slice(&[0, 0, 0, 0]);
    bytes.extend_from_slice(&[64, 0]);
    bytes.extend_from_slice(&[56, 0]);
    bytes.extend_from_slice(&[1, 0]);
    bytes.extend_from_slice(&[64, 0]);
    bytes.extend_from_slice(&[0, 0]);
    bytes.extend_from_slice(&[0, 0]);
    bytes
}

fn sample_with(at: usize, patch: &[u8]) -> Vec<u8> {
    let mut bytes = sample();
    bytes[at..at + patch.len()].copy_from_slice(patch);
    bytes
}

#[test]
fn sample_is_64_bytes() {
    assert_eq!(sample().len(), 64);
}

#[test]
fn end_to_end_decodes_every_field() {
    let header = ElfHeader::from_bytes(&sample()).unwrap();
    assert_eq!(header.ident.magic, [0x7f, 0x45, 0x4c, 0x46]);
    assert_eq!(header.ident.class, IdentClass::ELFCLASS64);
    assert_eq!(header.ident.data, IdentData::ELFDATA2LSB);
    assert_eq!(header.ident.version, IdentVersion::EvCurrent);
    assert_eq!(header.ident.os_abi, IdentOSABI::NONE);
    assert_eq!(header.ident.abi_version, 0);
    assert_eq!(header.e_type, ElfType::EtExec);
    assert_eq!(header.machine, ElfMachine::EmX8664);
    assert_eq!(header.version, ElfVersion::EvCurrent);
    assert_eq!(header.entry, 0x401000);
    assert_eq!(header.phoff, 64);
    assert_eq!(header.shoff, 0);
    assert_eq!(header.flags, 0);
    assert_eq!(header.ehsize, 64);
    assert_eq!(header.phentsize, 56);
    assert_eq!(header.phnum, 1);
    assert_eq!(header.shentsize, 64);
    assert_eq!(header.shnum, 0);
    assert_eq!(header.shstrndx, 0);
}

#[test]
fn end_to_end_report_lines() {
    let header = ElfHeader::from_bytes(&sample()).unwrap();
    let report = header.render();
    let lines: Vec<&str> = report.lines().collect();
    assert!(lines.contains(&"Machine: AMD x86-64 architecture"));
    assert!(lines.contains(&"Entry point address: 0x401000"));
}

#[test]
fn end_to_end_report_is_exact() {
    let header = ElfHeader::from_bytes(&sample()).unwrap();
    let expected = "ELF Identification:\n\
                    \x20 Magic: [7f, 45, 4c, 46]\n\
                    \x20 Class: 64-bit objects\n\
                    \x20 Data: Little-endian\n\
                    \x20 Version: Current version\n\
                    \x20 OS/ABI: No extensions or unspecified\n\
                    \x20 ABI Version: 0\n\
                    ELF Type: Executable file\n\
                    Machine: AMD x86-64 architecture\n\
                    Version: Current version\n\
                    Entry point address: 0x401000\n\
                    Start of program headers: 64 (bytes into file)\n\
                    Start of section headers: 0 (bytes into file)\n\
                    Flags: 0x0\n\
                    Size of this header: 64 (bytes)\n\
                    Size of program headers: 56 (bytes)\n\
                    Number of program headers: 1\n\
                    Size of section headers: 64 (bytes)\n\
                    Number of section headers: 0\n\
                    Section header string table index: 0";
    assert_eq!(header.render(), expected);
}

#[test]
fn report_has_no_trailing_line_end() {
    let report = ElfHeader::from_bytes(&sample()).unwrap().render();
    assert!(!report.ends_with('\n'));
    assert_eq!(report.lines().count(), 20);
}

#[test]
fn ident_report_is_exact() {
    let bytes = sample_with(7, &[255, 10]);
    let ident = EIdent::from_bytes(&bytes[0..16]).unwrap();
    let expected = "ELF Identification:\n\
                    \x20 Magic: [7f, 45, 4c, 46]\n\
                    \x20 Class: 64-bit objects\n\
                    \x20 Data: Little-endian\n\
                    \x20 Version: Current version\n\
                    \x20 OS/ABI: Standalone (embedded) application\n\
                    \x20 ABI Version: 10";
    assert_eq!(ident.render(), expected);
}

#[test]
fn magic_is_written_as_hex_bytes() {
    let mut ident = EIdent::from_bytes(&sample()[..16]).unwrap();
    let report = ident.render();
    let lines: Vec<&str> = report.lines().collect();
    assert_eq!(lines[1], "  Magic: [7f, 45, 4c, 46]");
    assert_eq!(lines[1], format!("  Magic: {:x?}", ident.magic));
    ident.magic = [0, 10, 255, 16];
    let report = ident.render();
    let lines: Vec<&str> = report.lines().collect();
    assert_eq!(lines[1], "  Magic: [0, a, ff, 10]");
    assert_eq!(lines[1], format!("  Magic: {:x?}", ident.magic));
}

#[test]
fn report_matches_std_formatting() {
    let mut bytes = sample();
    for (i, b) in bytes.iter_mut().enumerate().skip(24) {
        *b = (i as u8).wrapping_mul(37).wrapping_add(11);
    }
    let header = ElfHeader::from_bytes(&bytes).unwrap();
    let report = header.render();
    let lines: Vec<&str> = report.lines().collect();
    assert_eq!(lines[10], format!("Entry point address: 0x{:x}", header.entry));
    assert_eq!(lines[11], format!("Start of program headers: {} (bytes into file)", header.phoff));
    assert_eq!(lines[12], format!("Start of section headers: {} (bytes into file)", header.shoff));
    assert_eq!(lines[13], format!("Flags: 0x{:x}", header.flags));
    assert_eq!(lines[14], format!("Size of this header: {} (bytes)", header.ehsize));
    assert_eq!(lines[15], format!("Size of program headers: {} (bytes)", header.phentsize));
    assert_eq!(lines[16], format!("Number of program headers: {}", header.phnum));
    assert_eq!(lines[17], format!("Size of section headers: {} (bytes)", header.shentsize));
    assert_eq!(lines[18], format!("Number of section headers: {}", header.shnum));
    assert_eq!(lines[19], format!("Section header string table index: {}", header.shstrndx));
}

#[test]
fn short_buffers_are_invalid_size() {
    let full = sample();
    for len in 0..64usize {
        assert_eq!(ElfHeader::from_bytes(&full[..len]), Err(ElfParseError::InvalidSize));
    }
    let garbage: Vec<u8> = vec![0xaa; 63];
    assert_eq!(ElfHeader::from_bytes(&garbage), Err(ElfParseError::InvalidSize));
    assert_eq!(ElfHeader::from_bytes(&[]), Err(ElfParseError::InvalidSize));
}

#[test]
fn short_ident_buffers_are_invalid_size() {
    let full = sample();
    for len in 0..16usize {
        assert_eq!(EIdent::from_bytes(&full[..len]), Err(ElfParseError::InvalidSize));
    }
    assert!(EIdent::from_bytes(&full[..16]).is_ok());
}

#[test]
fn size_is_checked_before_magic() {
    let bytes: Vec<u8> = vec![0; 10];
    assert_eq!(ElfHeader::from_bytes(&bytes), Err(ElfParseError::InvalidSize));
    assert_eq!(EIdent::from_bytes(&bytes), Err(ElfParseError::InvalidSize));
}

#[test]
fn wrong_magic_is_invalid_magic() {
    for at in 0..4usize {
        let mut bytes = sample();
        bytes[at] ^= 0x01;
        assert_eq!(ElfHeader::from_bytes(&bytes), Err(ElfParseError::InvalidMagic));
        assert_eq!(EIdent::from_bytes(&bytes), Err(ElfParseError::InvalidMagic));
    }
}

#[test]
fn wrong_magic_wins_over_the_other_bytes() {
    let mut bytes: Vec<u8> = vec![0xff; 64];
    bytes[0] = 0x7f;
    bytes[1] = 0x45;
    bytes[2] = 0x4c;
    bytes[3] = 0x47;
    assert_eq!(ElfHeader::from_bytes(&bytes), Err(ElfParseError::InvalidMagic));
    let zeros: Vec<u8> = vec![0; 64];
    assert_eq!(ElfHeader::from_bytes(&zeros), Err(ElfParseError::InvalidMagic));
}

#[test]
fn class_byte_over_its_whole_range() {
    for class_byte in 0..=255u8 {
        let bytes = sample_with(4, &[class_byte]);
        let decoded = ElfHeader::from_bytes(&bytes);
        match class_byte {
            1 => {
                let header = decoded.unwrap();
                assert_eq!(header.ident.class, IdentClass::ELFCLASS32);
                assert_eq!(header.ident.class.label(), "32-bit objects");
            }
            2 => {
                let header = decoded.unwrap();
                assert_eq!(header.ident.class, IdentClass::ELFCLASS64);
                assert_eq!(header.ident.class.label(), "64-bit objects");
            }
            _ => assert_eq!(decoded, Err(ElfParseError::InvalidClass)),
        }
    }
}

#[test]
fn data_byte_over_its_whole_range() {
    for data_byte in 0..=255u8 {
        let bytes = sample_with(5, &[data_byte]);
        let decoded = ElfHeader::from_bytes(&bytes);
        match data_byte {
            1 => assert_eq!(decoded.unwrap().ident.data.label(), "Little-endian"),
            2 => assert_eq!(decoded.unwrap().ident.data.label(), "Big-endian"),
            _ => assert_eq!(decoded, Err(ElfParseError::InvalidData)),
        }
    }
}

#[test]
fn ident_version_byte_over_its_whole_range() {
    for version_byte in 0..=255u8 {
        let bytes = sample_with(6, &[version_byte]);
        let decoded = ElfHeader::from_bytes(&bytes);
        match version_byte {
            0 => assert_eq!(decoded.unwrap().ident.version.label(), "Invalid version"),
            1 => assert_eq!(decoded.unwrap().ident.version.label(), "Current version"),
            _ => assert_eq!(decoded, Err(ElfParseError::InvalidVersion)),
        }
    }
}

#[test]
fn os_abi_byte_over_its_whole_range() {
    for os_abi in 0..=255u8 {
        let bytes = sample_with(7, &[os_abi]);
        let decoded = ElfHeader::from_bytes(&bytes);
        let reserved = os_abi == 4 || os_abi == 5 || (19..=254).contains(&os_abi);
        if reserved {
            assert_eq!(decoded, Err(ElfParseError::ReservedOsAbi));
        } else {
            assert_eq!(decoded.unwrap().ident.os_abi.code(), os_abi);
        }
        assert_ne!(EIdent::from_bytes(&bytes), Err(ElfParseError::InvalidOsAbi));
    }
}

#[test]
fn os_abi_labels() {
    let gnu = ElfHeader::from_bytes(&sample_with(7, &[3])).unwrap();
    assert_eq!(gnu.ident.os_abi, IdentOSABI::GNU);
    assert_eq!(gnu.ident.os_abi.label(), "GNU");
    let standalone = ElfHeader::from_bytes(&sample_with(7, &[255])).unwrap();
    assert_eq!(standalone.ident.os_abi, IdentOSABI::STANDALONE);
    assert_eq!(standalone.ident.os_abi.label(), "Standalone (embedded) application");
    assert_eq!(
        ElfHeader::from_bytes(&sample_with(7, &[4])),
        Err(ElfParseError::ReservedOsAbi)
    );
    assert_eq!(
        ElfHeader::from_bytes(&sample_with(7, &[19])),
        Err(ElfParseError::ReservedOsAbi)
    );
    assert_eq!(
        ElfHeader::from_bytes(&sample_with(7, &[254])),
        Err(ElfParseError::ReservedOsAbi)
    );
}

#[test]
fn abi_version_is_taken_as_it_stands() {
    for abi_version in 0..=255u8 {
        let header = ElfHeader::from_bytes(&sample_with(8, &[abi_version])).unwrap();
        assert_eq!(header.ident.abi_version, abi_version);
    }
}

#[test]
fn padding_bytes_are_not_looked_at() {
    let plain = ElfHeader::from_bytes(&sample()).unwrap();
    let padded = ElfHeader::from_bytes(&sample_with(9, &[1, 2, 3, 4, 5, 6, 7])).unwrap();
    assert_eq!(plain, padded);
}

#[test]
fn checks_run_in_field_order() {
    let mut bytes = sample();
    bytes[4] = 9;
    bytes[5] = 9;
    bytes[6] = 9;
    bytes[7] = 100;
    bytes[16] = 9;
    bytes[18] = 6;
    bytes[20] = 9;
    assert_eq!(ElfHeader::from_bytes(&bytes), Err(ElfParseError::InvalidClass));
    bytes[4] = 2;
    assert_eq!(ElfHeader::from_bytes(&bytes), Err(ElfParseError::InvalidData));
    bytes[5] = 1;
    assert_eq!(ElfHeader::from_bytes(&bytes), Err(ElfParseError::InvalidVersion));
    bytes[6] = 1;
    assert_eq!(ElfHeader::from_bytes(&bytes), Err(ElfParseError::ReservedOsAbi));
    bytes[7] = 0;
    assert_eq!(ElfHeader::from_bytes(&bytes), Err(ElfParseError::InvalidType));
    bytes[16] = 2;
    assert_eq!(ElfHeader::from_bytes(&bytes), Err(ElfParseError::InvalidMachine));
    bytes[18] = 62;
    assert_eq!(ElfHeader::from_bytes(&bytes), Err(ElfParseError::InvalidVersion));
    bytes[20] = 1;
    assert!(ElfHeader::from_bytes(&bytes).is_ok());
}

#[test]
fn ident_errors_pass_through_unchanged() {
    for at in 0..9usize {
        for value in [0u8, 3, 4, 77, 200] {
            let bytes = sample_with(at, &[value]);
            match EIdent::from_bytes(&bytes[0..16]) {
                Err(e) => assert_eq!(ElfHeader::from_bytes(&bytes), Err(e)),
                Ok(ident) => assert_eq!(ElfHeader::from_bytes(&bytes).unwrap().ident, ident),
            }
        }
    }
}

#[test]
fn decoding_twice_gives_the_same_record() {
    let bytes = sample();
    let first = ElfHeader::from_bytes(&bytes);
    let second = ElfHeader::from_bytes(&bytes);
    assert!(first.is_ok());
    assert_eq!(first, second);
    let bad = sample_with(18, &[6, 0]);
    assert_eq!(ElfHeader::from_bytes(&bad), ElfHeader::from_bytes(&bad));
}

#[test]
fn bytes_after_the_header_do_not_matter() {
    let mut long = sample();
    long.extend_from_slice(&[0xde, 0xad, 0xbe, 0xef]);
    assert_eq!(ElfHeader::from_bytes(&long), ElfHeader::from_bytes(&sample()));
    let mut long_ident: Vec<u8> = sample()[..16].to_vec();
    long_ident.push(0xff);
    assert_eq!(EIdent::from_bytes(&long_ident), EIdent::from_bytes(&sample()[..16]));
}

#[test]
fn entry_point_is_little_endian() {
    let bytes = sample_with(24, &[0x78, 0x56, 0x34, 0x12, 0, 0, 0, 0]);
    let header = ElfHeader::from_bytes(&bytes).unwrap();
    assert_eq!(header.entry, 0x12345678);
    assert_eq!(header.entry & 0xffff_ffff, 0x12345678);
    assert_eq!(header.entry >> 32, 0);
}

#[test]
fn wide_fields_are_little_endian() {
    let mut bytes = sample();
    bytes[24..32].copy_from_slice(&[0x01, 0x23, 0x45, 0x67, 0x89, 0xab, 0xcd, 0xef]);
    bytes[32..40].copy_from_slice(&[0xff; 8]);
    bytes[40..48].copy_from_slice(&[0, 0, 0, 0, 0, 0, 0, 0x80]);
    bytes[48..52].copy_from_slice(&[0xef, 0xbe, 0xad, 0xde]);
    bytes[52..54].copy_from_slice(&[0x34, 0x12]);
    bytes[54..56].copy_from_slice(&[0xff, 0xff]);
    bytes[56..58].copy_from_slice(&[0x00, 0x01]);
    bytes[58..60].copy_from_slice(&[0x01, 0x00]);
    bytes[60..62].copy_from_slice(&[0xcd, 0xab]);
    bytes[62..64].copy_from_slice(&[0x00, 0x80]);
    let header = ElfHeader::from_bytes(&bytes).unwrap();
    assert_eq!(header.entry, 0xefcd_ab89_6745_2301);
    assert_eq!(header.phoff, u64::MAX);
    assert_eq!(header.shoff, 0x8000_0000_0000_0000);
    assert_eq!(header.flags, 0xdead_beef);
    assert_eq!(header.ehsize, 0x1234);
    assert_eq!(header.phentsize, 0xffff);
    assert_eq!(header.phnum, 0x0100);
    assert_eq!(header.shentsize, 1);
    assert_eq!(header.shnum, 0xabcd);
    assert_eq!(header.shstrndx, 0x8000);
    assert_eq!(header.entry, u64::from_le_bytes([0x01, 0x23, 0x45, 0x67, 0x89, 0xab, 0xcd, 0xef]));
}

#[test]
fn big_endian_tag_does_not_change_the_byte_order() {
    let mut bytes = sample_with(24, &[0x78, 0x56, 0x34, 0x12, 0, 0, 0, 0]);
    bytes[5] = 2;
    let header = ElfHeader::from_bytes(&bytes).unwrap();
    assert_eq!(header.ident.data, IdentData::ELFDATA2MSB);
    assert_eq!(header.entry, 0x12345678);
    assert_eq!(header.machine, ElfMachine::EmX8664);
    assert_eq!(header.phoff, 64);
}

#[test]
fn machine_labels() {
    let x86 = ElfHeader::from_bytes(&sample_with(18, &[62, 0])).unwrap();
    assert_eq!(x86.machine.label(), "AMD x86-64 architecture");
    let arm = ElfHeader::from_bytes(&sample_with(18, &[183, 0])).unwrap();
    assert_eq!(arm.machine, ElfMachine::EmAarch64);
    assert_eq!(arm.machine.label(), "ARM AARCH64");
    let riscv = ElfHeader::from_bytes(&sample_with(18, &[243, 0])).unwrap();
    assert_eq!(riscv.machine.label(), "RISC-V");
    assert_eq!(
        ElfHeader::from_bytes(&sample_with(18, &[6, 0])),
        Err(ElfParseError::InvalidMachine)
    );
    assert_eq!(
        ElfHeader::from_bytes(&sample_with(18, &[62, 1])),
        Err(ElfParseError::InvalidMachine)
    );
}

#[test]
fn machine_field_over_its_whole_range() {
    let known: [u16; 22] = [
        0, 1, 2, 3, 4, 5, 7, 8, 9, 10, 15, 17, 18, 19, 20, 21, 22, 62, 183, 243, 0xff00, 0xffff,
    ];
    for value in 0..=u16::MAX {
        let bytes = sample_with(18, &value.to_le_bytes());
        let decoded = ElfHeader::from_bytes(&bytes);
        if known.contains(&value) {
            assert_eq!(decoded.unwrap().machine.code(), value);
        } else {
            assert_eq!(decoded, Err(ElfParseError::InvalidMachine));
        }
    }
}

#[test]
fn object_type_field_over_its_whole_range() {
    let known: [u16; 7] = [0, 1, 2, 3, 4, 0xff00, 0xffff];
    for value in 0..=u16::MAX {
        let bytes = sample_with(16, &value.to_le_bytes());
        let decoded = ElfHeader::from_bytes(&bytes);
        if known.contains(&value) {
            assert_eq!(decoded.unwrap().e_type.code(), value);
        } else {
            assert_eq!(decoded, Err(ElfParseError::InvalidType));
        }
    }
}

#[test]
fn object_type_labels() {
    let expected: [(u16, &str); 7] = [
        (0, "No file type"),
        (1, "Relocatable file"),
        (2, "Executable file"),
        (3, "Shared object file"),
        (4, "Core file"),
        (0xff00, "Processor-specific (low)"),
        (0xffff, "Processor-specific (high)"),
    ];
    for (value, label) in expected {
        let header = ElfHeader::from_bytes(&sample_with(16, &value.to_le_bytes())).unwrap();
        assert_eq!(header.e_type.label(), label);
    }
}

#[test]
fn header_version_field() {
    let none = ElfHeader::from_bytes(&sample_with(20, &[0, 0, 0, 0])).unwrap();
    assert_eq!(none.version, ElfVersion::EvNone);
    assert_eq!(none.version.label(), "Invalid version");
    let current = ElfHeader::from_bytes(&sample_with(20, &[1, 0, 0, 0])).unwrap();
    assert_eq!(current.version.label(), "Current version");
    assert_eq!(
        ElfHeader::from_bytes(&sample_with(20, &[2, 0, 0, 0])),
        Err(ElfParseError::InvalidVersion)
    );
    assert_eq!(
        ElfHeader::from_bytes(&sample_with(20, &[1, 0, 0, 1])),
        Err(ElfParseError::InvalidVersion)
    );
    assert_eq!(
        ElfHeader::from_bytes(&sample_with(20, &[1, 1, 0, 0])),
        Err(ElfParseError::InvalidVersion)
    );
}

#[test]
fn error_messages() {
    assert_eq!(ElfParseError::InvalidSize.message(), "Invalid ELF header size");
    assert_eq!(ElfParseError::InvalidMagic.message(), "Invalid ELF magic number");
    assert_eq!(ElfParseError::InvalidClass.message(), "Invalid ELF class");
    assert_eq!(ElfParseError::InvalidData.message(), "Invalid ELF data encoding");
    assert_eq!(ElfParseError::InvalidVersion.message(), "Invalid ELF version");
    assert_eq!(ElfParseError::InvalidOsAbi.message(), "Invalid ELF OS/ABI");
    assert_eq!(ElfParseError::InvalidType.message(), "Invalid ELF type");
    assert_eq!(ElfParseError::InvalidMachine.message(), "Invalid ELF machine");
    assert_eq!(ElfParseError::ReservedOsAbi.message(), "Reserved OS/ABI value");
    assert_eq!(
        ElfParseError::IoError(String::from("file not found")).message(),
        "IO Error: file not found"
    );
    assert_eq!(ElfParseError::IoError(String::new()).message(), "IO Error: ");
}
