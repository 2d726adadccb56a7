//! The header proper: the identification block and the fields after it.

use crate::error::ElfParseError;
use crate::ident::{has_magic, EIdent, IdentClass, IDENT_SIZE};
use crate::little_endian::{le_u16, le_u32, le_u64, read_u16, read_u32, read_u64};
use crate::text::{append_decimal, append_lower_hex, decimal, lower_hex};
use vstd::prelude::*;
use vstd::slice::slice_subrange;
use vstd::string::StringExecFns;

verus! {

/// The kind of object file.
#[derive(Debug, Clone, Copy, PartialEq, Eq)]
pub enum ElfType {
    /// No file type.
    EtNone,
    /// A relocatable file.
    EtRel,
    /// An executable file.
    EtExec,
    /// A shared object file.
    EtDyn,
    /// A core file.
    EtCore,
    /// The low end of the processor-specific range.
    EtLoProc,
    /// The high end of the processor-specific range.
    EtHiProc,
}

impl ElfType {
    /// The value that stands for this object type in a header.
    pub open spec fn spec_code(self) -> u16 {
        match self {
            ElfType::EtNone => 0,
            ElfType::EtRel => 1,
            ElfType::EtExec => 2,
            ElfType::EtDyn => 3,
            ElfType::EtCore => 4,
            ElfType::EtLoProc => 0xff00,
            ElfType::EtHiProc => 0xffff,
        }
    }

    /// The object type that `code` stands for, if it stands for one.
    pub open spec fn spec_from_code(code: u16) -> Option<ElfType> {
        match code {
            0 => Some(ElfType::EtNone),
            1 => Some(ElfType::EtRel),
            2 => Some(ElfType::EtExec),
            3 => Some(ElfType::EtDyn),
            4 => Some(ElfType::EtCore),
            0xff00 => Some(ElfType::EtLoProc),
            0xffff => Some(ElfType::EtHiProc),
            _ => None,
        }
    }

    /// The text that describes this object type.
    pub open spec fn spec_label(self) -> Seq<char> {
        match self {
            ElfType::EtNone => "No file type"@,
            ElfType::EtRel => "Relocatable file"@,
            ElfType::EtExec => "Executable file"@,
            ElfType::EtDyn => "Shared object file"@,
            ElfType::EtCore => "Core file"@,
            ElfType::EtLoProc => "Processor-specific (low)"@,
            ElfType::EtHiProc => "Processor-specific (high)"@,
        }
    }

    /// The value that stands for this object type in a header.
    pub fn code(&self) -> (code: u16)
        ensures
            code == self.spec_code(),
    {
        match self {
            ElfType::EtNone => 0,
            ElfType::EtRel => 1,
            ElfType::EtExec => 2,
            ElfType::EtDyn => 3,
            ElfType::EtCore => 4,
            ElfType::EtLoProc => 0xff00,
            ElfType::EtHiProc => 0xffff,
        }
    }

    /// Looks `code` up among the known values.
    pub fn from_code(code: u16) -> (found: Option<ElfType>)
        ensures
            found == ElfType::spec_from_code(code),
    {
        match code {
            0 => Some(ElfType::EtNone),
            1 => Some(ElfType::EtRel),
            2 => Some(ElfType::EtExec),
            3 => Some(ElfType::EtDyn),
            4 => Some(ElfType::EtCore),
            0xff00 => Some(ElfType::EtLoProc),
            0xffff => Some(ElfType::EtHiProc),
            _ => None,
        }
    }

    /// The text that describes this object type.
    pub fn label(&self) -> (text: &'static str)
        ensures
            text@ == self.spec_label(),
    {
        match self {
            ElfType::EtNone => "No file type",
            ElfType::EtRel => "Relocatable file",
            ElfType::EtExec => "Executable file",
            ElfType::EtDyn => "Shared object file",
            ElfType::EtCore => "Core file",
            ElfType::EtLoProc => "Processor-specific (low)",
            ElfType::EtHiProc => "Processor-specific (high)",
        }
    }

    /// The lookup table and the values agree: a code is found exactly
    /// as the object type whose value it is.
    pub proof fn lemma_code_round_trip(code: u16, value: ElfType)
        ensures
            ElfType::spec_from_code(code) == Some(value) <==> value.spec_code() == code,
    {
    }
}

/// The architecture that the file is made for.
#[derive(Debug, Clone, Copy, PartialEq, Eq)]
pub enum ElfMachine {
    /// No machine.
    EmNone,
    /// AT&T WE 32100.
    EmM32,
    /// SPARC.
    EmSparc,
    /// Intel 80386.
    Em386,
    /// Motorola 68000.
    Em68k,
    /// Motorola 88000.
    Em88k,
    /// Intel 80860.
    Em860,
    /// MIPS I.
    EmMips,
    /// IBM System/370.
    EmS370,
    /// MIPS RS3000, little-endian.
    EmMipsRs3Le,
    /// Hewlett-Packard PA-RISC.
    EmParisc,
    /// Fujitsu VPP500.
    EmVpp500,
    /// SPARC with the enhanced instruction set.
    EmSparc32Plus,
    /// Intel 80960.
    Em960,
    /// PowerPC.
    EmPpc,
    /// 64-bit PowerPC.
    EmPpc64,
    /// IBM System/390.
    EmS390,
    /// AMD x86-64.
    EmX8664,
    /// ARM AArch64.
    EmAarch64,
    /// RISC-V.
    EmRiscv,
    /// The low end of the processor-specific range.
    EmLoProc,
    /// The high end of the processor-specific range.
    EmHiProc,
}

impl ElfMachine {
    /// The value that stands for this machine in a header.
    pub open spec fn spec_code(self) -> u16 {
        match self {
            ElfMachine::EmNone => 0,
            ElfMachine::EmM32 => 1,
            ElfMachine::EmSparc => 2,
            ElfMachine::Em386 => 3,
            ElfMachine::Em68k => 4,
            ElfMachine::Em88k => 5,
            ElfMachine::Em860 => 7,
            ElfMachine::EmMips => 8,
            ElfMachine::EmS370 => 9,
            ElfMachine::EmMipsRs3Le => 10,
            ElfMachine::EmParisc => 15,
            ElfMachine::EmVpp500 => 17,
            ElfMachine::EmSparc32Plus => 18,
            ElfMachine::Em960 => 19,
            ElfMachine::EmPpc => 20,
            ElfMachine::EmPpc64 => 21,
            ElfMachine::EmS390 => 22,
            ElfMachine::EmX8664 => 62,
            ElfMachine::EmAarch64 => 183,
            ElfMachine::EmRiscv => 243,
            ElfMachine::EmLoProc => 0xff00,
            ElfMachine::EmHiProc => 0xffff,
        }
    }

    /// The machine that `code` stands for, if it stands for one.
    pub open spec fn spec_from_code(code: u16) -> Option<ElfMachine> {
        match code {
            0 => Some(ElfMachine::EmNone),
            1 => Some(ElfMachine::EmM32),
            2 => Some(ElfMachine::EmSparc),
            3 => Some(ElfMachine::Em386),
            4 => Some(ElfMachine::Em68k),
            5 => Some(ElfMachine::Em88k),
            7 => Some(ElfMachine::Em860),
            8 => Some(ElfMachine::EmMips),
            9 => Some(ElfMachine::EmS370),
            10 => Some(ElfMachine::EmMipsRs3Le),
            15 => Some(ElfMachine::EmParisc),
            17 => Some(ElfMachine::EmVpp500),
            18 => Some(ElfMachine::EmSparc32Plus),
            19 => Some(ElfMachine::Em960),
            20 => Some(ElfMachine::EmPpc),
            21 => Some(ElfMachine::EmPpc64),
            22 => Some(ElfMachine::EmS390),
            62 => Some(ElfMachine::EmX8664),
            183 => Some(ElfMachine::EmAarch64),
            243 => Some(ElfMachine::EmRiscv),
            0xff00 => Some(ElfMachine::EmLoProc),
            0xffff => Some(ElfMachine::EmHiProc),
            _ => None,
        }
    }

    /// The text that describes this machine.
    pub open spec fn spec_label(self) -> Seq<char> {
        match self {
            ElfMachine::EmNone => "No machine"@,
            ElfMachine::EmM32 => "AT&T WE 32100"@,
            ElfMachine::EmSparc => "SPARC"@,
            ElfMachine::Em386 => "Intel 80386"@,
            ElfMachine::Em68k => "Motorola 68000"@,
            ElfMachine::Em88k => "Motorola 88000"@,
            ElfMachine::Em860 => "Intel 80860"@,
            ElfMachine::EmMips => "MIPS I Architecture"@,
            ElfMachine::EmS370 => "IBM System/370 Processor"@,
            ElfMachine::EmMipsRs3Le => "MIPS RS3000 Little-endian"@,
            ElfMachine::EmParisc => "Hewlett-Packard PA-RISC"@,
            ElfMachine::EmVpp500 => "Fujitsu VPP500"@,
            ElfMachine::EmSparc32Plus => "Enhanced instruction set SPARC"@,
            ElfMachine::Em960 => "Intel 80960"@,
            ElfMachine::EmPpc => "PowerPC"@,
            ElfMachine::EmPpc64 => "PowerPC64"@,
            ElfMachine::EmS390 => "IBM System/390 Processor"@,
            ElfMachine::EmX8664 => "AMD x86-64 architecture"@,
            ElfMachine::EmAarch64 => "ARM AARCH64"@,
            ElfMachine::EmRiscv => "RISC-V"@,
            ElfMachine::EmLoProc => "Processor-specific (low)"@,
            ElfMachine::EmHiProc => "Processor-specific (high)"@,
        }
    }

    /// The value that stands for this machine in a header.
    pub fn code(&self) -> (code: u16)
        ensures
            code == self.spec_code(),
    {
        match self {
            ElfMachine::EmNone => 0,
            ElfMachine::EmM32 => 1,
            ElfMachine::EmSparc => 2,
            ElfMachine::Em386 => 3,
            ElfMachine::Em68k => 4,
            ElfMachine::Em88k => 5,
            ElfMachine::Em860 => 7,
            ElfMachine::EmMips => 8,
            ElfMachine::EmS370 => 9,
            ElfMachine::EmMipsRs3Le => 10,
            ElfMachine::EmParisc => 15,
            ElfMachine::EmVpp500 => 17,
            ElfMachine::EmSparc32Plus => 18,
            ElfMachine::Em960 => 19,
            ElfMachine::EmPpc => 20,
            ElfMachine::EmPpc64 => 21,
            ElfMachine::EmS390 => 22,
            ElfMachine::EmX8664 => 62,
            ElfMachine::EmAarch64 => 183,
            ElfMachine::EmRiscv => 243,
            ElfMachine::EmLoProc => 0xff00,
            ElfMachine::EmHiProc => 0xffff,
        }
    }

    /// Looks `code` up among the known values.
    pub fn from_code(code: u16) -> (found: Option<ElfMachine>)
        ensures
            found == ElfMachine::spec_from_code(code),
    {
        match code {
            0 => Some(ElfMachine::EmNone),
            1 => Some(ElfMachine::EmM32),
            2 => Some(ElfMachine::EmSparc),
            3 => Some(ElfMachine::Em386),
            4 => Some(ElfMachine::Em68k),
            5 => Some(ElfMachine::Em88k),
            7 => Some(ElfMachine::Em860),
            8 => Some(ElfMachine::EmMips),
            9 => Some(ElfMachine::EmS370),
            10 => Some(ElfMachine::EmMipsRs3Le),
            15 => Some(ElfMachine::EmParisc),
            17 => Some(ElfMachine::EmVpp500),
            18 => Some(ElfMachine::EmSparc32Plus),
            19 => Some(ElfMachine::Em960),
            20 => Some(ElfMachine::EmPpc),
            21 => Some(ElfMachine::EmPpc64),
            22 => Some(ElfMachine::EmS390),
            62 => Some(ElfMachine::EmX8664),
            183 => Some(ElfMachine::EmAarch64),
            243 => Some(ElfMachine::EmRiscv),
            0xff00 => Some(ElfMachine::EmLoProc),
            0xffff => Some(ElfMachine::EmHiProc),
            _ => None,
        }
    }

    /// The text that describes this machine.
    pub fn label(&self) -> (text: &'static str)
        ensures
            text@ == self.spec_label(),
    {
        match self {
            ElfMachine::EmNone => "No machine",
            ElfMachine::EmM32 => "AT&T WE 32100",
            ElfMachine::EmSparc => "SPARC",
            ElfMachine::Em386 => "Intel 80386",
            ElfMachine::Em68k => "Motorola 68000",
            ElfMachine::Em88k => "Motorola 88000",
            ElfMachine::Em860 => "Intel 80860",
            ElfMachine::EmMips => "MIPS I Architecture",
            ElfMachine::EmS370 => "IBM System/370 Processor",
            ElfMachine::EmMipsRs3Le => "MIPS RS3000 Little-endian",
            ElfMachine::EmParisc => "Hewlett-Packard PA-RISC",
            ElfMachine::EmVpp500 => "Fujitsu VPP500",
            ElfMachine::EmSparc32Plus => "Enhanced instruction set SPARC",
            ElfMachine::Em960 => "Intel 80960",
            ElfMachine::EmPpc => "PowerPC",
            ElfMachine::EmPpc64 => "PowerPC64",
            ElfMachine::EmS390 => "IBM System/390 Processor",
            ElfMachine::EmX8664 => "AMD x86-64 architecture",
            ElfMachine::EmAarch64 => "ARM AARCH64",
            ElfMachine::EmRiscv => "RISC-V",
            ElfMachine::EmLoProc => "Processor-specific (low)",
            ElfMachine::EmHiProc => "Processor-specific (high)",
        }
    }

    /// The lookup table and the values agree: a code is found exactly
    /// as the machine whose value it is.
    pub proof fn lemma_code_round_trip(code: u16, value: ElfMachine)
        ensures
            ElfMachine::spec_from_code(code) == Some(value) <==> value.spec_code() == code,
    {
    }
}

/// The format version named in the header proper.
#[derive(Debug, Clone, Copy, PartialEq, Eq)]
pub enum ElfVersion {
    /// No valid version.
    EvNone,
    /// The current version.
    EvCurrent,
}

impl ElfVersion {
    /// The value that stands for this version in a header.
    pub open spec fn spec_code(self) -> u32 {
        match self {
            ElfVersion::EvNone => 0,
            ElfVersion::EvCurrent => 1,
        }
    }

    /// The version that `code` stands for, if it stands for one.
    pub open spec fn spec_from_code(code: u32) -> Option<ElfVersion> {
        match code {
            0 => Some(ElfVersion::EvNone),
            1 => Some(ElfVersion::EvCurrent),
            _ => None,
        }
    }

    /// The text that describes this version.
    pub open spec fn spec_label(self) -> Seq<char> {
        match self {
            ElfVersion::EvNone => "Invalid version"@,
            ElfVersion::EvCurrent => "Current version"@,
        }
    }

    /// The value that stands for this version in a header.
    pub fn code(&self) -> (code: u32)
        ensures
            code == self.spec_code(),
    {
        match self {
            ElfVersion::EvNone => 0,
            ElfVersion::EvCurrent => 1,
        }
    }

    /// Looks `code` up among the known values.
    pub fn from_code(code: u32) -> (found: Option<ElfVersion>)
        ensures
            found == ElfVersion::spec_from_code(code),
    {
        match code {
            0 => Some(ElfVersion::EvNone),
            1 => Some(ElfVersion::EvCurrent),
            _ => None,
        }
    }

    /// The text that describes this version.
    pub fn label(&self) -> (text: &'static str)
        ensures
            text@ == self.spec_label(),
    {
        match self {
            ElfVersion::EvNone => "Invalid version",
            ElfVersion::EvCurrent => "Current version",
        }
    }

    /// The lookup table and the values agree: a code is found exactly
    /// as the version whose value it is.
    pub proof fn lemma_code_round_trip(code: u32, value: ElfVersion)
        ensures
            ElfVersion::spec_from_code(code) == Some(value) <==> value.spec_code() == code,
    {
    }
}
/// The number of bytes in the header.
pub const HEADER_SIZE: usize = 64;

/// The decoded header of a 64-bit ELF file.
#[derive(Debug, Clone, Copy, PartialEq, Eq)]
pub struct ElfHeader {
    /// The identification block.
    pub ident: EIdent,
    /// The kind of object file.
    pub e_type: ElfType,
    /// The architecture.
    pub machine: ElfMachine,
    /// The format version.
    pub version: ElfVersion,
    /// The virtual address at which execution starts.
    pub entry: u64,
    /// Where the program header table starts, in bytes into the file.
    pub phoff: u64,
    /// Where the section header table starts, in bytes into the file.
    pub shoff: u64,
    /// Processor-specific flags, not decoded further.
    pub flags: u32,
    /// The size of this header in bytes.
    pub ehsize: u16,
    /// The size of one program header in bytes.
    pub phentsize: u16,
    /// The number of program headers.
    pub phnum: u16,
    /// The size of one section header in bytes.
    pub shentsize: u16,
    /// The number of section headers.
    pub shnum: u16,
    /// Which section header holds the section names.
    pub shstrndx: u16,
}

impl ElfHeader {
    /// A header is well formed when its identification block is.
    pub open spec fn wf(self) -> bool {
        self.ident.wf()
    }

    /// What decoding the buffer `s` gives.
    ///
    /// The size is checked first, then the identification block, whose
    /// error is handed on as it is, then object type, machine and version.
    /// The numeric fields are taken as they stand. Every field of more than
    /// one byte is read least significant byte first, whatever byte order
    /// the identification block declares.
    pub open spec fn spec_from_bytes(s: Seq<u8>) -> Result<ElfHeader, ElfParseError> {
        if s.len() < HEADER_SIZE {
            Err(ElfParseError::InvalidSize)
        } else {
            match EIdent::spec_from_bytes(s.subrange(0, IDENT_SIZE as int)) {
                Err(e) => Err(e),
                Ok(ident) => {
                    if ElfType::spec_from_code(le_u16(s, 16) as u16) is None {
                        Err(ElfParseError::InvalidType)
                    } else if ElfMachine::spec_from_code(le_u16(s, 18) as u16) is None {
                        Err(ElfParseError::InvalidMachine)
                    } else if ElfVersion::spec_from_code(le_u32(s, 20) as u32) is None {
                        Err(ElfParseError::InvalidVersion)
                    } else {
                        Ok(
                            ElfHeader {
                                ident,
                                e_type: ElfType::spec_from_code(le_u16(s, 16) as u16).unwrap(),
                                machine: ElfMachine::spec_from_code(le_u16(s, 18) as u16).unwrap(),
                                version: ElfVersion::spec_from_code(le_u32(s, 20) as u32).unwrap(),
                                entry: le_u64(s, 24) as u64,
                                phoff: le_u64(s, 32) as u64,
                                shoff: le_u64(s, 40) as u64,
                                flags: le_u32(s, 48) as u32,
                                ehsize: le_u16(s, 52) as u16,
                                phentsize: le_u16(s, 54) as u16,
                                phnum: le_u16(s, 56) as u16,
                                shentsize: le_u16(s, 58) as u16,
                                shnum: le_u16(s, 60) as u16,
                                shstrndx: le_u16(s, 62) as u16,
                            },
                        )
                    }
                },
            }
        }
    }

    /// Decodes the header at the start of `bytes`.
    pub fn from_bytes(bytes: &[u8]) -> (r: Result<ElfHeader, ElfParseError>)
        ensures
            r == ElfHeader::spec_from_bytes(bytes@),
            bytes@.len() < HEADER_SIZE ==> r == Err::<ElfHeader, ElfParseError>(
                ElfParseError::InvalidSize,
            ),
            bytes@.len() >= HEADER_SIZE && !has_magic(bytes@) ==> r == Err::<
                ElfHeader,
                ElfParseError,
            >(ElfParseError::InvalidMagic),
            r is Ok ==> r.unwrap().wf(),
    {
        if bytes.len() < HEADER_SIZE {
            return Err(ElfParseError::InvalidSize);
        }
        let ident = match EIdent::from_bytes(slice_subrange(bytes, 0, IDENT_SIZE)) {
            Ok(ident) => ident,
            Err(e) => return Err(e),
        };
        let e_type = match ElfType::from_code(read_u16(bytes, 16)) {
            Some(e_type) => e_type,
            None => return Err(ElfParseError::InvalidType),
        };
        let machine = match ElfMachine::from_code(read_u16(bytes, 18)) {
            Some(machine) => machine,
            None => return Err(ElfParseError::InvalidMachine),
        };
        let version = match ElfVersion::from_code(read_u32(bytes, 20)) {
            Some(version) => version,
            None => return Err(ElfParseError::InvalidVersion),
        };
        Ok(
            ElfHeader {
                ident,
                e_type,
                machine,
                version,
                entry: read_u64(bytes, 24),
                phoff: read_u64(bytes, 32),
                shoff: read_u64(bytes, 40),
                flags: read_u32(bytes, 48),
                ehsize: read_u16(bytes, 52),
                phentsize: read_u16(bytes, 54),
                phnum: read_u16(bytes, 56),
                shentsize: read_u16(bytes, 58),
                shnum: read_u16(bytes, 60),
                shstrndx: read_u16(bytes, 62),
            },
        )
    }

    /// A buffer of fewer than 64 bytes is refused for its size, whatever it
    /// holds.
    pub proof fn lemma_short_buffer_rejected(s: Seq<u8>)
        requires
            s.len() < HEADER_SIZE,
        ensures
            ElfHeader::spec_from_bytes(s) == Err::<ElfHeader, ElfParseError>(
                ElfParseError::InvalidSize,
            ),
    {
    }

    /// A buffer of 64 bytes or more whose first four bytes are not the
    /// signature is refused for its signature, whatever the other bytes are.
    pub proof fn lemma_wrong_magic_rejected(s: Seq<u8>)
        requires
            s.len() >= HEADER_SIZE,
            !has_magic(s),
        ensures
            ElfHeader::spec_from_bytes(s) == Err::<ElfHeader, ElfParseError>(
                ElfParseError::InvalidMagic,
            ),
    {
    }

    /// An error of the identification block is handed on unchanged, and a
    /// decoded header holds the block as the identification decoder gives
    /// it.
    pub proof fn lemma_ident_passes_through(s: Seq<u8>)
        requires
            s.len() >= HEADER_SIZE,
        ensures
            EIdent::spec_from_bytes(s) matches Err(e) ==> ElfHeader::spec_from_bytes(s) == Err::<
                ElfHeader,
                ElfParseError,
            >(e),
            ElfHeader::spec_from_bytes(s) matches Ok(header) ==> EIdent::spec_from_bytes(s) == Ok::<
                EIdent,
                ElfParseError,
            >(header.ident),
    {
        EIdent::lemma_reads_only_the_block(s);
    }

    /// With the signature in place the class byte decides alone: any value
    /// but 1 and 2 is refused as an invalid class, and after 1 or 2 a
    /// decoded header carries the class of that name.
    pub proof fn lemma_class_byte_decides(s: Seq<u8>)
        requires
            s.len() >= HEADER_SIZE,
            has_magic(s),
        ensures
            s[4] != 1 && s[4] != 2 ==> ElfHeader::spec_from_bytes(s) == Err::<
                ElfHeader,
                ElfParseError,
            >(ElfParseError::InvalidClass),
            s[4] == 1 ==> (ElfHeader::spec_from_bytes(s) matches Ok(header) ==> header.ident.class
                == IdentClass::ELFCLASS32 && header.ident.class.spec_label() == "32-bit objects"@),
            s[4] == 2 ==> (ElfHeader::spec_from_bytes(s) matches Ok(header) ==> header.ident.class
                == IdentClass::ELFCLASS64 && header.ident.class.spec_label() == "64-bit objects"@),
    {
        EIdent::lemma_class_byte_decides(s);
        ElfHeader::lemma_ident_passes_through(s);
    }

    /// Once signature, class, data encoding and version byte are accepted,
    /// a reserved OS/ABI byte (4, 5, 19 to 254) has the buffer refused as
    /// such; after 3 a decoded header is labelled GNU, after 255 a
    /// standalone application.
    pub proof fn lemma_os_abi_byte_decides(s: Seq<u8>)
        requires
            s.len() >= HEADER_SIZE,
            has_magic(s),
            s[4] == 1 || s[4] == 2,
            s[5] == 1 || s[5] == 2,
            s[6] == 0 || s[6] == 1,
        ensures
            s[7] == 4 || s[7] == 5 || 19 <= s[7] <= 254 ==> ElfHeader::spec_from_bytes(s) == Err::<
                ElfHeader,
                ElfParseError,
            >(ElfParseError::ReservedOsAbi),
            s[7] == 3 ==> (ElfHeader::spec_from_bytes(s) matches Ok(header)
                ==> header.ident.os_abi.spec_label() == "GNU"@),
            s[7] == 255 ==> (ElfHeader::spec_from_bytes(s) matches Ok(header)
                ==> header.ident.os_abi.spec_label() == "Standalone (embedded) application"@),
    {
        EIdent::lemma_os_abi_byte_decides(s);
        ElfHeader::lemma_ident_passes_through(s);
    }

    /// Once the identification block and the object type are accepted, the
    /// machine field decides alone: a value that names no known
    /// architecture has the buffer refused as such; after 62 a decoded
    /// header is labelled as AMD x86-64, after 183 as ARM AArch64.
    pub proof fn lemma_machine_field_decides(s: Seq<u8>)
        requires
            s.len() >= HEADER_SIZE,
            EIdent::spec_from_bytes(s) is Ok,
            ElfType::spec_from_code(le_u16(s, 16) as u16) is Some,
        ensures
            ElfMachine::spec_from_code(le_u16(s, 18) as u16) is None ==> ElfHeader::spec_from_bytes(
                s,
            ) == Err::<ElfHeader, ElfParseError>(ElfParseError::InvalidMachine),
            le_u16(s, 18) == 62 ==> (ElfHeader::spec_from_bytes(s) matches Ok(header)
                ==> header.machine.spec_label() == "AMD x86-64 architecture"@),
            le_u16(s, 18) == 183 ==> (ElfHeader::spec_from_bytes(s) matches Ok(header)
                ==> header.machine.spec_label() == "ARM AARCH64"@),
    {
        EIdent::lemma_reads_only_the_block(s);
    }

    /// Two buffers that agree on their first 64 bytes decode to the same
    /// result, field for field: the result depends on those bytes and on
    /// nothing else.
    pub proof fn lemma_same_bytes_same_header(a: Seq<u8>, b: Seq<u8>)
        requires
            a.len() >= HEADER_SIZE,
            b.len() >= HEADER_SIZE,
            forall|i: int| 0 <= i < HEADER_SIZE ==> a[i] == b[i],
        ensures
            ElfHeader::spec_from_bytes(a) == ElfHeader::spec_from_bytes(b),
    {
        EIdent::lemma_reads_only_the_block(a);
        EIdent::lemma_reads_only_the_block(b);
        EIdent::lemma_same_bytes_same_block(a, b);
    }

    /// Every numeric field of a decoded header holds, without loss, the
    /// little-endian value of its bytes in the buffer.
    pub proof fn lemma_fields_are_little_endian(s: Seq<u8>)
        requires
            ElfHeader::spec_from_bytes(s) is Ok,
        ensures
            ({
                let header = ElfHeader::spec_from_bytes(s).unwrap();
                &&& header.e_type.spec_code() == le_u16(s, 16)
                &&& header.machine.spec_code() == le_u16(s, 18)
                &&& header.version.spec_code() == le_u32(s, 20)
                &&& header.entry == le_u64(s, 24)
                &&& header.phoff == le_u64(s, 32)
                &&& header.shoff == le_u64(s, 40)
                &&& header.flags == le_u32(s, 48)
                &&& header.ehsize == le_u16(s, 52)
                &&& header.phentsize == le_u16(s, 54)
                &&& header.phnum == le_u16(s, 56)
                &&& header.shentsize == le_u16(s, 58)
                &&& header.shnum == le_u16(s, 60)
                &&& header.shstrndx == le_u16(s, 62)
            }),
    {
    }

    /// The report on this header: the report on the identification block,
    /// then one line for each field, the last one without a line end.
    /// Addresses and flags are written in hexadecimal, offsets, sizes and
    /// counts in decimal.
    pub open spec fn spec_render(self) -> Seq<char> {
        self.ident.spec_render() + "\n"@
            + "ELF Type: "@ + self.e_type.spec_label() + "\n"@
            + "Machine: "@ + self.machine.spec_label() + "\n"@
            + "Version: "@ + self.version.spec_label() + "\n"@
            + "Entry point address: 0x"@ + lower_hex(self.entry as nat) + "\n"@
            + "Start of program headers: "@ + decimal(self.phoff as nat) + " (bytes into file)\n"@
            + "Start of section headers: "@ + decimal(self.shoff as nat) + " (bytes into file)\n"@
            + "Flags: 0x"@ + lower_hex(self.flags as nat) + "\n"@
            + "Size of this header: "@ + decimal(self.ehsize as nat) + " (bytes)\n"@
            + "Size of program headers: "@ + decimal(self.phentsize as nat) + " (bytes)\n"@
            + "Number of program headers: "@ + decimal(self.phnum as nat) + "\n"@
            + "Size of section headers: "@ + decimal(self.shentsize as nat) + " (bytes)\n"@
            + "Number of section headers: "@ + decimal(self.shnum as nat) + "\n"@
            + "Section header string table index: "@ + decimal(self.shstrndx as nat)
    }

    /// Renders the report on this header.
    pub fn render(&self) -> (text: String)
        ensures
            text@ == self.spec_render(),
    {
        let mut out = self.ident.render();
        out.append("\n");
        out.append("ELF Type: ");
        out.append(self.e_type.label());
        out.append("\n");
        out.append("Machine: ");
        out.append(self.machine.label());
        out.append("\n");
        out.append("Version: ");
        out.append(self.version.label());
        out.append("\n");
        out.append("Entry point address: 0x");
        append_lower_hex(&mut out, self.entry);
        out.append("\n");
        out.append("Start of program headers: ");
        append_decimal(&mut out, self.phoff);
        out.append(" (bytes into file)\n");
        out.append("Start of section headers: ");
        append_decimal(&mut out, self.shoff);
        out.append(" (bytes into file)\n");
        out.append("Flags: 0x");
        append_lower_hex(&mut out, self.flags as u64);
        out.append("\n");
        out.append("Size of this header: ");
        append_decimal(&mut out, self.ehsize as u64);
        out.append(" (bytes)\n");
        out.append("Size of program headers: ");
        append_decimal(&mut out, self.phentsize as u64);
        out.append(" (bytes)\n");
        out.append("Number of program headers: ");
        append_decimal(&mut out, self.phnum as u64);
        out.append("\n");
        out.append("Size of section headers: ");
        append_decimal(&mut out, self.shentsize as u64);
        out.append(" (bytes)\n");
        out.append("Number of section headers: ");
        append_decimal(&mut out, self.shnum as u64);
        out.append("\n");
        out.append("Section header string table index: ");
        append_decimal(&mut out, self.shstrndx as u64);
        out
    }
}

} // verus!
