//! Runtime versions, the pre-check of a program image, and where an image
//! comes from.

use vstd::prelude::*;
use crate::error::ClrError;
use crate::wide::{encode_wide_z, utf16_encode};

verus! {

/// The runtime versions that can be hosted.
#[derive(Debug, Clone, Copy, PartialEq, Eq, Structural)]
pub enum RuntimeVersion {
    /// Version `v2.0.50727`.
    V2,
    /// Version `v3.0`.
    V3,
    /// Version `v4.0.30319`.
    V4,
    /// An unknown or unsupported version.
    UNKNOWN,
}

/// The version string the meta-host service is asked for.
pub open spec fn version_text(v: RuntimeVersion) -> Seq<char> {
    match v {
        RuntimeVersion::V2 => "v2.0.50727"@,
        RuntimeVersion::V3 => "v3.0"@,
        RuntimeVersion::V4 => "v4.0.30319"@,
        RuntimeVersion::UNKNOWN => "UNKNOWN"@,
    }
}

impl RuntimeVersion {
    /// The version string as a zero-terminated wide string.
    pub fn to_vec(self) -> (r: Vec<u16>)
        ensures
            r@ == utf16_encode(version_text(self)).push(0),
    {
        match self {
            RuntimeVersion::V2 => encode_wide_z("v2.0.50727"),
            RuntimeVersion::V3 => encode_wide_z("v3.0"),
            RuntimeVersion::V4 => encode_wide_z("v4.0.30319"),
            RuntimeVersion::UNKNOWN => encode_wide_z("UNKNOWN"),
        }
    }

    /// The version to use: the one requested, else `V4`.
    pub fn selected(requested: Option<RuntimeVersion>) -> (r: RuntimeVersion)
        ensures
            r == (match requested { Some(v) => v, None => RuntimeVersion::V4 }),
    {
        match requested {
            Some(v) => v,
            None => RuntimeVersion::V4,
        }
    }
}

/// Header flag: the file is an executable image.
pub const IMAGE_FILE_EXECUTABLE_IMAGE: u16 = 0x0002;
/// Header flag: the file is a library.
pub const IMAGE_FILE_DLL: u16 = 0x2000;
/// Subsystem of native (driver) images.
pub const IMAGE_SUBSYSTEM_NATIVE: u16 = 1;

/// What the pre-check reads from an image's headers.
#[derive(Debug, Clone, Copy, PartialEq, Eq, Structural)]
pub struct ImageHeader {
    /// The characteristics flags of the file header.
    pub characteristics: u16,
    /// The subsystem of the optional header.
    pub subsystem: u16,
    /// Address of the managed-runtime descriptor directory.
    pub com_descriptor_address: u32,
    /// Size of the managed-runtime descriptor directory.
    pub com_descriptor_size: u32,
}

/// The little-endian 16-bit number at `i`.
pub open spec fn u16_at(b: Seq<u8>, i: int) -> int {
    b[i] + 256 * b[i + 1]
}

/// The little-endian 32-bit number at `i`.
pub open spec fn u32_at(b: Seq<u8>, i: int) -> int {
    u16_at(b, i) + 65536 * u16_at(b, i + 2)
}

/// Offset of the optional header's data directories, by the header's magic
/// number: PE32 or PE32+, nothing else.
pub open spec fn directories_offset(magic: int) -> int {
    if magic == 0x10b {
        96
    } else if magic == 0x20b {
        112
    } else {
        -1
    }
}

/// What the pre-check reads from an image: the DOS header's "MZ" mark and
/// the offset of the "PE\0\0" signature at 0x3c; after the signature the file
/// header (characteristics at +22) and the optional header (magic at +24,
/// subsystem at +24+68, and the data directory of the managed-runtime
/// descriptor, the fifteenth). `None` when a mark is missing or a field lies
/// beyond the buffer.
pub open spec fn header_spec(b: Seq<u8>) -> Option<ImageHeader> {
    if b.len() < 64 || u16_at(b, 0) != 0x5a4d {
        None
    } else {
        let nt = u32_at(b, 0x3c);
        let opt = nt + 24;
        if opt + 70 > b.len() || u32_at(b, nt) != 0x4550 {
            None
        } else {
            let dirs = directories_offset(u16_at(b, opt));
            if dirs < 0 || opt + dirs + 15 * 8 > b.len() {
                None
            } else {
                let com = opt + dirs + 14 * 8;
                Some(
                    ImageHeader {
                        characteristics: u16_at(b, nt + 22) as u16,
                        subsystem: u16_at(b, opt + 68) as u16,
                        com_descriptor_address: u32_at(b, com) as u32,
                        com_descriptor_size: u32_at(b, com + 4) as u32,
                    },
                )
            }
        }
    }
}

fn read_u16(b: &[u8], i: u64) -> (r: u16)
    requires
        i + 2 <= b@.len(),
    ensures
        r == u16_at(b@, i as int),
{
    b[i as usize] as u16 + 256 * (b[(i + 1) as usize] as u16)
}

fn read_u32(b: &[u8], i: u64) -> (r: u32)
    requires
        i + 4 <= b@.len(),
    ensures
        r == u32_at(b@, i as int),
{
    let n = b.len();
    assert(i + 4 <= n);
    let lo = read_u16(b, i);
    let hi = read_u16(b, i + 2);
    lo as u32 + 65536 * (hi as u32)
}

/// Reads the fields the pre-check needs from an image's headers.
pub fn image_header(b: &[u8]) -> (r: Option<ImageHeader>)
    ensures
        r == header_spec(b@),
{
    let n: u64 = b.len() as u64;
    if n < 64 || read_u16(b, 0) != 0x5a4d {
        return None;
    }
    let nt: u64 = read_u32(b, 0x3c) as u64;
    let opt: u64 = nt + 24;
    if opt + 70 > n || read_u32(b, nt) != 0x4550 {
        return None;
    }
    let magic = read_u16(b, opt);
    let dirs: u64 = if magic == 0x10b {
        96
    } else if magic == 0x20b {
        112
    } else {
        return None;
    };
    if opt + dirs + 15 * 8 > n {
        return None;
    }
    let com = opt + dirs + 14 * 8;
    Some(
        ImageHeader {
            characteristics: read_u16(b, nt + 22),
            subsystem: read_u16(b, opt + 68),
            com_descriptor_address: read_u32(b, com),
            com_descriptor_size: read_u32(b, com + 4),
        },
    )
}

/// An executable that is neither a library nor a native image.
pub open spec fn executable_spec(h: ImageHeader) -> bool {
    h.characteristics & IMAGE_FILE_EXECUTABLE_IMAGE != 0 && h.characteristics & IMAGE_FILE_DLL == 0
        && h.subsystem != IMAGE_SUBSYSTEM_NATIVE
}

/// An image that carries a managed-runtime descriptor.
pub open spec fn managed_spec(h: ImageHeader) -> bool {
    h.com_descriptor_address != 0 && h.com_descriptor_size != 0
}

/// Whether the headers describe an executable that is neither a library nor
/// a native image.
pub fn is_valid_executable(h: &ImageHeader) -> (r: bool)
    ensures
        r == executable_spec(*h),
{
    h.characteristics & IMAGE_FILE_EXECUTABLE_IMAGE != 0 && h.characteristics & IMAGE_FILE_DLL == 0
        && h.subsystem != IMAGE_SUBSYSTEM_NATIVE
}

/// Whether the image carries a managed-runtime descriptor.
pub fn is_dotnet(h: &ImageHeader) -> (r: bool)
    ensures
        r == managed_spec(*h),
{
    h.com_descriptor_address != 0 && h.com_descriptor_size != 0
}

/// The verdict of the pre-check on an image's headers.
pub open spec fn validate_spec(header: Option<ImageHeader>) -> Result<(), ClrError> {
    match header {
        None => Err(ClrError::InvalidNtHeader),
        Some(h) => if !executable_spec(h) {
            Err(ClrError::InvalidExecutable)
        } else if !managed_spec(h) {
            Err(ClrError::NotDotNet)
        } else {
            Ok(())
        },
    }
}

/// The pre-check of an image: its headers must exist, describe an executable
/// and carry a managed-runtime descriptor.
pub fn validate_file(header: Option<ImageHeader>) -> (r: Result<(), ClrError>)
    ensures
        r == validate_spec(header),
{
    match header {
        None => Err(ClrError::InvalidNtHeader),
        Some(h) => if !is_valid_executable(&h) {
            Err(ClrError::InvalidExecutable)
        } else if !is_dotnet(&h) {
            Err(ClrError::NotDotNet)
        } else {
            Ok(())
        },
    }
}

/// Where a program image comes from.
#[derive(Debug, Clone)]
pub enum ClrSource<'a> {
    /// A file, by its path.
    File(&'a str),
    /// An in-memory buffer.
    Buffer(&'a [u8]),
}

impl<'a> From<&'a str> for ClrSource<'a> {
    fn from(file: &'a str) -> (r: ClrSource<'a>) {
        ClrSource::File(file)
    }
}

impl<'a> vstd::std_specs::convert::FromSpecImpl<&'a str> for ClrSource<'a> {
    open spec fn obeys_from_spec() -> bool {
        true
    }

    open spec fn from_spec(file: &'a str) -> ClrSource<'a> {
        ClrSource::File(file)
    }
}

impl<'a> From<&'a [u8]> for ClrSource<'a> {
    fn from(buffer: &'a [u8]) -> (r: ClrSource<'a>) {
        ClrSource::Buffer(buffer)
    }
}

impl<'a> vstd::std_specs::convert::FromSpecImpl<&'a [u8]> for ClrSource<'a> {
    open spec fn obeys_from_spec() -> bool {
        true
    }

    open spec fn from_spec(buffer: &'a [u8]) -> ClrSource<'a> {
        ClrSource::Buffer(buffer)
    }
}

} // verus!
