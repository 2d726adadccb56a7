//! The identification block: the first sixteen bytes of an ELF file.

use crate::error::ElfParseError;
use crate::text::{append_decimal, append_lower_hex, decimal, lower_hex};
use vstd::prelude::*;
use vstd::string::StringExecFns;

verus! {

/// The object class: the word size that the file is laid out for.
#[derive(Debug, Clone, Copy, PartialEq, Eq)]
pub enum IdentClass {
    /// 32-bit objects.
    ELFCLASS32,
    /// 64-bit objects.
    ELFCLASS64,
}

impl IdentClass {
    /// The value that stands for this class in a header.
    pub open spec fn spec_code(self) -> u8 {
        match self {
            IdentClass::ELFCLASS32 => 1,
            IdentClass::ELFCLASS64 => 2,
        }
    }

    /// The class that `code` stands for, if it stands for one.
    pub open spec fn spec_from_code(code: u8) -> Option<IdentClass> {
        match code {
            1 => Some(IdentClass::ELFCLASS32),
            2 => Some(IdentClass::ELFCLASS64),
            _ => None,
        }
    }

    /// The text that describes this class.
    pub open spec fn spec_label(self) -> Seq<char> {
        match self {
            IdentClass::ELFCLASS32 => "32-bit objects"@,
            IdentClass::ELFCLASS64 => "64-bit objects"@,
        }
    }

    /// The value that stands for this class in a header.
    pub fn code(&self) -> (code: u8)
        ensures
            code == self.spec_code(),
    {
        match self {
            IdentClass::ELFCLASS32 => 1,
            IdentClass::ELFCLASS64 => 2,
        }
    }

    /// Looks `code` up among the known values.
    pub fn from_code(code: u8) -> (found: Option<IdentClass>)
        ensures
            found == IdentClass::spec_from_code(code),
    {
        match code {
            1 => Some(IdentClass::ELFCLASS32),
            2 => Some(IdentClass::ELFCLASS64),
            _ => None,
        }
    }

    /// The text that describes this class.
    pub fn label(&self) -> (text: &'static str)
        ensures
            text@ == self.spec_label(),
    {
        match self {
            IdentClass::ELFCLASS32 => "32-bit objects",
            IdentClass::ELFCLASS64 => "64-bit objects",
        }
    }

    /// The lookup table and the values agree: a code is found exactly
    /// as the class whose value it is.
    pub proof fn lemma_code_round_trip(code: u8, value: IdentClass)
        ensures
            IdentClass::spec_from_code(code) == Some(value) <==> value.spec_code() == code,
    {
    }
}

/// The byte order that the file declares for its data.
#[derive(Debug, Clone, Copy, PartialEq, Eq)]
pub enum IdentData {
    /// Least significant byte first.
    ELFDATA2LSB,
    /// Most significant byte first.
    ELFDATA2MSB,
}

impl IdentData {
    /// The value that stands for this data encoding in a header.
    pub open spec fn spec_code(self) -> u8 {
        match self {
            IdentData::ELFDATA2LSB => 1,
            IdentData::ELFDATA2MSB => 2,
        }
    }

    /// The data encoding that `code` stands for, if it stands for one.
    pub open spec fn spec_from_code(code: u8) -> Option<IdentData> {
        match code {
            1 => Some(IdentData::ELFDATA2LSB),
            2 => Some(IdentData::ELFDATA2MSB),
            _ => None,
        }
    }

    /// The text that describes this data encoding.
    pub open spec fn spec_label(self) -> Seq<char> {
        match self {
            IdentData::ELFDATA2LSB => "Little-endian"@,
            IdentData::ELFDATA2MSB => "Big-endian"@,
        }
    }

    /// The value that stands for this data encoding in a header.
    pub fn code(&self) -> (code: u8)
        ensures
            code == self.spec_code(),
    {
        match self {
            IdentData::ELFDATA2LSB => 1,
            IdentData::ELFDATA2MSB => 2,
        }
    }

    /// Looks `code` up among the known values.
    pub fn from_code(code: u8) -> (found: Option<IdentData>)
        ensures
            found == IdentData::spec_from_code(code),
    {
        match code {
            1 => Some(IdentData::ELFDATA2LSB),
            2 => Some(IdentData::ELFDATA2MSB),
            _ => None,
        }
    }

    /// The text that describes this data encoding.
    pub fn label(&self) -> (text: &'static str)
        ensures
            text@ == self.spec_label(),
    {
        match self {
            IdentData::ELFDATA2LSB => "Little-endian",
            IdentData::ELFDATA2MSB => "Big-endian",
        }
    }

    /// The lookup table and the values agree: a code is found exactly
    /// as the data encoding whose value it is.
    pub proof fn lemma_code_round_trip(code: u8, value: IdentData)
        ensures
            IdentData::spec_from_code(code) == Some(value) <==> value.spec_code() == code,
    {
    }
}

/// The format version named in the identification block.
#[derive(Debug, Clone, Copy, PartialEq, Eq)]
pub enum IdentVersion {
    /// No valid version.
    EvNone,
    /// The current version.
    EvCurrent,
}

impl IdentVersion {
    /// The value that stands for this version in a header.
    pub open spec fn spec_code(self) -> u8 {
        match self {
            IdentVersion::EvNone => 0,
            IdentVersion::EvCurrent => 1,
        }
    }

    /// The version that `code` stands for, if it stands for one.
    pub open spec fn spec_from_code(code: u8) -> Option<IdentVersion> {
        match code {
            0 => Some(IdentVersion::EvNone),
            1 => Some(IdentVersion::EvCurrent),
            _ => None,
        }
    }

    /// The text that describes this version.
    pub open spec fn spec_label(self) -> Seq<char> {
        match self {
            IdentVersion::EvNone => "Invalid version"@,
            IdentVersion::EvCurrent => "Current version"@,
        }
    }

    /// The value that stands for this version in a header.
    pub fn code(&self) -> (code: u8)
        ensures
            code == self.spec_code(),
    {
        match self {
            IdentVersion::EvNone => 0,
            IdentVersion::EvCurrent => 1,
        }
    }

    /// Looks `code` up among the known values.
    pub fn from_code(code: u8) -> (found: Option<IdentVersion>)
        ensures
            found == IdentVersion::spec_from_code(code),
    {
        match code {
            0 => Some(IdentVersion::EvNone),
            1 => Some(IdentVersion::EvCurrent),
            _ => None,
        }
    }

    /// The text that describes this version.
    pub fn label(&self) -> (text: &'static str)
        ensures
            text@ == self.spec_label(),
    {
        match self {
            IdentVersion::EvNone => "Invalid version",
            IdentVersion::EvCurrent => "Current version",
        }
    }

    /// The lookup table and the values agree: a code is found exactly
    /// as the version whose value it is.
    pub proof fn lemma_code_round_trip(code: u8, value: IdentVersion)
        ensures
            IdentVersion::spec_from_code(code) == Some(value) <==> value.spec_code() == code,
    {
    }
}

/// The operating system or ABI whose conventions the file follows.
#[derive(Debug, Clone, Copy, PartialEq, Eq)]
pub enum IdentOSABI {
    /// No extensions, or unspecified.
    NONE,
    /// Hewlett-Packard HP-UX.
    HPUX,
    /// NetBSD.
    NETBSD,
    /// GNU.
    GNU,
    /// Sun Solaris.
    SOLARIS,
    /// IBM AIX.
    AIX,
    /// SGI IRIX.
    IRIX,
    /// FreeBSD.
    FREEBSD,
    /// Compaq Tru64 UNIX.
    TRU64,
    /// Novell Modesto.
    MODESTO,
    /// OpenBSD.
    OPENBSD,
    /// OpenVMS.
    OPENVMS,
    /// Hewlett-Packard NonStop Kernel.
    NSK,
    /// Amiga Research OS.
    AROS,
    /// FenixOS.
    FENIXOS,
    /// Nuxi CloudABI.
    CLOUDABI,
    /// Stratus Technologies OpenVOS.
    OPENVOS,
    /// A standalone (embedded) application.
    STANDALONE,
}

impl IdentOSABI {
    /// The value that stands for this OS/ABI in a header.
    pub open spec fn spec_code(self) -> u8 {
        match self {
            IdentOSABI::NONE => 0,
            IdentOSABI::HPUX => 1,
            IdentOSABI::NETBSD => 2,
            IdentOSABI::GNU => 3,
            IdentOSABI::SOLARIS => 6,
            IdentOSABI::AIX => 7,
            IdentOSABI::IRIX => 8,
            IdentOSABI::FREEBSD => 9,
            IdentOSABI::TRU64 => 10,
            IdentOSABI::MODESTO => 11,
            IdentOSABI::OPENBSD => 12,
            IdentOSABI::OPENVMS => 13,
            IdentOSABI::NSK => 14,
            IdentOSABI::AROS => 15,
            IdentOSABI::FENIXOS => 16,
            IdentOSABI::CLOUDABI => 17,
            IdentOSABI::OPENVOS => 18,
            IdentOSABI::STANDALONE => 255,
        }
    }

    /// The OS/ABI that `code` stands for, if it stands for one.
    pub open spec fn spec_from_code(code: u8) -> Option<IdentOSABI> {
        match code {
            0 => Some(IdentOSABI::NONE),
            1 => Some(IdentOSABI::HPUX),
            2 => Some(IdentOSABI::NETBSD),
            3 => Some(IdentOSABI::GNU),
            6 => Some(IdentOSABI::SOLARIS),
            7 => Some(IdentOSABI::AIX),
            8 => Some(IdentOSABI::IRIX),
            9 => Some(IdentOSABI::FREEBSD),
            10 => Some(IdentOSABI::TRU64),
            11 => Some(IdentOSABI::MODESTO),
            12 => Some(IdentOSABI::OPENBSD),
            13 => Some(IdentOSABI::OPENVMS),
            14 => Some(IdentOSABI::NSK),
            15 => Some(IdentOSABI::AROS),
            16 => Some(IdentOSABI::FENIXOS),
            17 => Some(IdentOSABI::CLOUDABI),
            18 => Some(IdentOSABI::OPENVOS),
            255 => Some(IdentOSABI::STANDALONE),
            _ => None,
        }
    }

    /// The text that describes this OS/ABI.
    pub open spec fn spec_label(self) -> Seq<char> {
        match self {
            IdentOSABI::NONE => "No extensions or unspecified"@,
            IdentOSABI::HPUX => "HP-UX"@,
            IdentOSABI::NETBSD => "NetBSD"@,
            IdentOSABI::GNU => "GNU"@,
            IdentOSABI::SOLARIS => "Solaris"@,
            IdentOSABI::AIX => "AIX"@,
            IdentOSABI::IRIX => "IRIX"@,
            IdentOSABI::FREEBSD => "FreeBSD"@,
            IdentOSABI::TRU64 => "Tru64"@,
            IdentOSABI::MODESTO => "Novell Modesto"@,
            IdentOSABI::OPENBSD => "OpenBSD"@,
            IdentOSABI::OPENVMS => "OpenVMS"@,
            IdentOSABI::NSK => "NonStop Kernel"@,
            IdentOSABI::AROS => "AROS"@,
            IdentOSABI::FENIXOS => "FenixOS"@,
            IdentOSABI::CLOUDABI => "CloudABI"@,
            IdentOSABI::OPENVOS => "Stratus Technologies OpenVOS"@,
            IdentOSABI::STANDALONE => "Standalone (embedded) application"@,
        }
    }

    /// The value that stands for this OS/ABI in a header.
    pub fn code(&self) -> (code: u8)
        ensures
            code == self.spec_code(),
    {
        match self {
            IdentOSABI::NONE => 0,
            IdentOSABI::HPUX => 1,
            IdentOSABI::NETBSD => 2,
            IdentOSABI::GNU => 3,
            IdentOSABI::SOLARIS => 6,
            IdentOSABI::AIX => 7,
            IdentOSABI::IRIX => 8,
            IdentOSABI::FREEBSD => 9,
            IdentOSABI::TRU64 => 10,
            IdentOSABI::MODESTO => 11,
            IdentOSABI::OPENBSD => 12,
            IdentOSABI::OPENVMS => 13,
            IdentOSABI::NSK => 14,
            IdentOSABI::AROS => 15,
            IdentOSABI::FENIXOS => 16,
            IdentOSABI::CLOUDABI => 17,
            IdentOSABI::OPENVOS => 18,
            IdentOSABI::STANDALONE => 255,
        }
    }

    /// Looks `code` up among the known values.
    pub fn from_code(code: u8) -> (found: Option<IdentOSABI>)
        ensures
            found == IdentOSABI::spec_from_code(code),
    {
        match code {
            0 => Some(IdentOSABI::NONE),
            1 => Some(IdentOSABI::HPUX),
            2 => Some(IdentOSABI::NETBSD),
            3 => Some(IdentOSABI::GNU),
            6 => Some(IdentOSABI::SOLARIS),
            7 => Some(IdentOSABI::AIX),
            8 => Some(IdentOSABI::IRIX),
            9 => Some(IdentOSABI::FREEBSD),
            10 => Some(IdentOSABI::TRU64),
            11 => Some(IdentOSABI::MODESTO),
            12 => Some(IdentOSABI::OPENBSD),
            13 => Some(IdentOSABI::OPENVMS),
            14 => Some(IdentOSABI::NSK),
            15 => Some(IdentOSABI::AROS),
            16 => Some(IdentOSABI::FENIXOS),
            17 => Some(IdentOSABI::CLOUDABI),
            18 => Some(IdentOSABI::OPENVOS),
            255 => Some(IdentOSABI::STANDALONE),
            _ => None,
        }
    }

    /// The text that describes this OS/ABI.
    pub fn label(&self) -> (text: &'static str)
        ensures
            text@ == self.spec_label(),
    {
        match self {
            IdentOSABI::NONE => "No extensions or unspecified",
            IdentOSABI::HPUX => "HP-UX",
            IdentOSABI::NETBSD => "NetBSD",
            IdentOSABI::GNU => "GNU",
            IdentOSABI::SOLARIS => "Solaris",
            IdentOSABI::AIX => "AIX",
            IdentOSABI::IRIX => "IRIX",
            IdentOSABI::FREEBSD => "FreeBSD",
            IdentOSABI::TRU64 => "Tru64",
            IdentOSABI::MODESTO => "Novell Modesto",
            IdentOSABI::OPENBSD => "OpenBSD",
            IdentOSABI::OPENVMS => "OpenVMS",
            IdentOSABI::NSK => "NonStop Kernel",
            IdentOSABI::AROS => "AROS",
            IdentOSABI::FENIXOS => "FenixOS",
            IdentOSABI::CLOUDABI => "CloudABI",
            IdentOSABI::OPENVOS => "Stratus Technologies OpenVOS",
            IdentOSABI::STANDALONE => "Standalone (embedded) application",
        }
    }

    /// The lookup table and the values agree: a code is found exactly
    /// as the OS/ABI whose value it is.
    pub proof fn lemma_code_round_trip(code: u8, value: IdentOSABI)
        ensures
            IdentOSABI::spec_from_code(code) == Some(value) <==> value.spec_code() == code,
    {
    }
}

impl IdentOSABI {
    /// Whether `code` lies in a range that the format keeps back: such a
    /// value names no OS/ABI, and is told apart from an unknown one.
    pub open spec fn spec_is_reserved(code: u8) -> bool {
        code == 4 || code == 5 || (19 <= code && code <= 254)
    }

    /// Whether `code` lies in a range that the format keeps back.
    pub fn is_reserved(code: u8) -> (reserved: bool)
        ensures
            reserved == IdentOSABI::spec_is_reserved(code),
    {
        code == 4 || code == 5 || (19 <= code && code <= 254)
    }

    /// Every byte is either reserved or the value of a known OS/ABI, never
    /// both.
    pub proof fn lemma_known_or_reserved(code: u8)
        ensures
            IdentOSABI::spec_is_reserved(code) != (IdentOSABI::spec_from_code(code) is Some),
    {
    }
}

/// The number of bytes in the identification block.
pub const IDENT_SIZE: usize = 16;

/// Whether `s` starts with the ELF signature: `0x7f`, then `ELF` in ASCII.
pub open spec fn has_magic(s: Seq<u8>) -> bool {
    &&& s.len() >= 4
    &&& s[0] == 0x7f
    &&& s[1] == 0x45
    &&& s[2] == 0x4c
    &&& s[3] == 0x46
}

/// The decoded identification block.
#[derive(Debug, Clone, Copy, PartialEq, Eq)]
pub struct EIdent {
    /// The signature, as it stood in the buffer.
    pub magic: [u8; 4],
    /// The object class.
    pub class: IdentClass,
    /// The declared byte order.
    pub data: IdentData,
    /// The format version.
    pub version: IdentVersion,
    /// The OS/ABI.
    pub os_abi: IdentOSABI,
    /// The version of that ABI, taken as it stands.
    pub abi_version: u8,
}

impl EIdent {
    /// A record is well formed when its signature is the ELF signature.
    pub open spec fn wf(self) -> bool {
        has_magic(self.magic@)
    }

    /// What decoding the buffer `s` gives.
    ///
    /// The checks run in field order and the first that fails decides the
    /// error. The ABI version is taken as it stands; bytes 9 to 15 are not
    /// looked at.
    pub open spec fn spec_from_bytes(s: Seq<u8>) -> Result<EIdent, ElfParseError> {
        if s.len() < IDENT_SIZE {
            Err(ElfParseError::InvalidSize)
        } else if !has_magic(s) {
            Err(ElfParseError::InvalidMagic)
        } else if IdentClass::spec_from_code(s[4]) is None {
            Err(ElfParseError::InvalidClass)
        } else if IdentData::spec_from_code(s[5]) is None {
            Err(ElfParseError::InvalidData)
        } else if IdentVersion::spec_from_code(s[6]) is None {
            Err(ElfParseError::InvalidVersion)
        } else if IdentOSABI::spec_is_reserved(s[7]) {
            Err(ElfParseError::ReservedOsAbi)
        } else if IdentOSABI::spec_from_code(s[7]) is None {
            Err(ElfParseError::InvalidOsAbi)
        } else {
            Ok(
                EIdent {
                    magic: [s[0], s[1], s[2], s[3]],
                    class: IdentClass::spec_from_code(s[4]).unwrap(),
                    data: IdentData::spec_from_code(s[5]).unwrap(),
                    version: IdentVersion::spec_from_code(s[6]).unwrap(),
                    os_abi: IdentOSABI::spec_from_code(s[7]).unwrap(),
                    abi_version: s[8],
                },
            )
        }
    }

    /// Decodes the identification block at the start of `bytes`.
    pub fn from_bytes(bytes: &[u8]) -> (r: Result<EIdent, ElfParseError>)
        ensures
            r == EIdent::spec_from_bytes(bytes@),
            bytes@.len() < IDENT_SIZE ==> r == Err::<EIdent, ElfParseError>(
                ElfParseError::InvalidSize,
            ),
            bytes@.len() >= IDENT_SIZE && !has_magic(bytes@) ==> r == Err::<EIdent, ElfParseError>(
                ElfParseError::InvalidMagic,
            ),
            r is Ok ==> r.unwrap().wf(),
    {
        if bytes.len() < IDENT_SIZE {
            return Err(ElfParseError::InvalidSize);
        }
        if bytes[0] != 0x7f || bytes[1] != 0x45 || bytes[2] != 0x4c || bytes[3] != 0x46 {
            return Err(ElfParseError::InvalidMagic);
        }
        let magic: [u8; 4] = [bytes[0], bytes[1], bytes[2], bytes[3]];
        let class = match IdentClass::from_code(bytes[4]) {
            Some(class) => class,
            None => return Err(ElfParseError::InvalidClass),
        };
        let data = match IdentData::from_code(bytes[5]) {
            Some(data) => data,
            None => return Err(ElfParseError::InvalidData),
        };
        let version = match IdentVersion::from_code(bytes[6]) {
            Some(version) => version,
            None => return Err(ElfParseError::InvalidVersion),
        };
        if IdentOSABI::is_reserved(bytes[7]) {
            return Err(ElfParseError::ReservedOsAbi);
        }
        let os_abi = match IdentOSABI::from_code(bytes[7]) {
            Some(os_abi) => os_abi,
            None => return Err(ElfParseError::InvalidOsAbi),
        };
        let ident = EIdent { magic, class, data, version, os_abi, abi_version: bytes[8] };
        proof {
            assert(ident.magic =~= EIdent::spec_from_bytes(bytes@).unwrap().magic);
        }
        Ok(ident)
    }

    /// Only the first sixteen bytes of a buffer bear on the result.
    pub proof fn lemma_reads_only_the_block(s: Seq<u8>)
        requires
            s.len() >= IDENT_SIZE,
        ensures
            EIdent::spec_from_bytes(s.subrange(0, IDENT_SIZE as int)) == EIdent::spec_from_bytes(s),
    {
    }

    /// With the signature in place the class byte decides alone: any value
    /// but 1 and 2 is refused as an invalid class, and after 1 or 2 a
    /// decoded block carries the class of that name.
    pub proof fn lemma_class_byte_decides(s: Seq<u8>)
        requires
            s.len() >= IDENT_SIZE,
            has_magic(s),
        ensures
            s[4] != 1 && s[4] != 2 ==> EIdent::spec_from_bytes(s) == Err::<EIdent, ElfParseError>(
                ElfParseError::InvalidClass,
            ),
            s[4] == 1 ==> (EIdent::spec_from_bytes(s) matches Ok(ident) ==> ident.class
                == IdentClass::ELFCLASS32 && ident.class.spec_label() == "32-bit objects"@),
            s[4] == 2 ==> (EIdent::spec_from_bytes(s) matches Ok(ident) ==> ident.class
                == IdentClass::ELFCLASS64 && ident.class.spec_label() == "64-bit objects"@),
    {
    }

    /// Once signature, class, data encoding and version are accepted, the
    /// OS/ABI byte decides alone: a reserved value (4, 5, 19 to 254) is
    /// refused as reserved, and every other value is decoded, 3 as GNU and
    /// 255 as a standalone application.
    pub proof fn lemma_os_abi_byte_decides(s: Seq<u8>)
        requires
            s.len() >= IDENT_SIZE,
            has_magic(s),
            s[4] == 1 || s[4] == 2,
            s[5] == 1 || s[5] == 2,
            s[6] == 0 || s[6] == 1,
        ensures
            s[7] == 4 || s[7] == 5 || 19 <= s[7] <= 254 ==> EIdent::spec_from_bytes(s) == Err::<
                EIdent,
                ElfParseError,
            >(ElfParseError::ReservedOsAbi),
            !(s[7] == 4 || s[7] == 5 || 19 <= s[7] <= 254) ==> EIdent::spec_from_bytes(s) is Ok,
            s[7] == 3 ==> EIdent::spec_from_bytes(s).unwrap().os_abi.spec_label() == "GNU"@,
            s[7] == 255 ==> EIdent::spec_from_bytes(s).unwrap().os_abi.spec_label()
                == "Standalone (embedded) application"@,
    {
    }

    /// No buffer is refused for an unknown OS/ABI: every value of that byte
    /// is either known or reserved.
    pub proof fn lemma_os_abi_never_unknown(s: Seq<u8>)
        ensures
            EIdent::spec_from_bytes(s) != Err::<EIdent, ElfParseError>(ElfParseError::InvalidOsAbi),
    {
    }

    /// Two buffers that agree on their first sixteen bytes decode to the
    /// same result, field for field.
    pub proof fn lemma_same_bytes_same_block(a: Seq<u8>, b: Seq<u8>)
        requires
            a.len() >= IDENT_SIZE,
            b.len() >= IDENT_SIZE,
            forall|i: int| 0 <= i < IDENT_SIZE ==> a[i] == b[i],
        ensures
            EIdent::spec_from_bytes(a) == EIdent::spec_from_bytes(b),
    {
    }

    /// The report on this block: a title line, then one line for each
    /// field, the last one without a line end. The signature is written as
    /// a list of hexadecimal bytes, the ABI version in decimal.
    pub open spec fn spec_render(self) -> Seq<char> {
        "ELF Identification:\n"@
            + "  Magic: ["@ + lower_hex(self.magic[0] as nat)
            + ", "@ + lower_hex(self.magic[1] as nat)
            + ", "@ + lower_hex(self.magic[2] as nat)
            + ", "@ + lower_hex(self.magic[3] as nat) + "]\n"@
            + "  Class: "@ + self.class.spec_label() + "\n"@
            + "  Data: "@ + self.data.spec_label() + "\n"@
            + "  Version: "@ + self.version.spec_label() + "\n"@
            + "  OS/ABI: "@ + self.os_abi.spec_label() + "\n"@
            + "  ABI Version: "@ + decimal(self.abi_version as nat)
    }

    /// Renders the report on this block.
    pub fn render(&self) -> (text: String)
        ensures
            text@ == self.spec_render(),
    {
        let mut out = String::from_str("ELF Identification:\n");
        out.append("  Magic: [");
        append_lower_hex(&mut out, self.magic[0] as u64);
        out.append(", ");
        append_lower_hex(&mut out, self.magic[1] as u64);
        out.append(", ");
        append_lower_hex(&mut out, self.magic[2] as u64);
        out.append(", ");
        append_lower_hex(&mut out, self.magic[3] as u64);
        out.append("]\n");
        out.append("  Class: ");
        out.append(self.class.label());
        out.append("\n");
        out.append("  Data: ");
        out.append(self.data.label());
        out.append("\n");
        out.append("  Version: ");
        out.append(self.version.label());
        out.append("\n");
        out.append("  OS/ABI: ");
        out.append(self.os_abi.label());
        out.append("\n");
        out.append("  ABI Version: ");
        append_decimal(&mut out, self.abi_version as u64);
        out
    }
}

} // verus!
