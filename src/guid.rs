//! Binary identifiers of the hosting runtime's services and interfaces.

use vstd::prelude::*;

verus! {

/// A 128-bit identifier split into the fields of its native layout.
#[derive(Debug, Clone, Copy, PartialEq, Eq, Structural)]
pub struct Guid {
    pub data1: u32,
    pub data2: u16,
    pub data3: u16,
    /// The last eight bytes, read as one big-endian number.
    pub data4: u64,
}

/// The fields of the identifier written as the number `v`.
pub open spec fn guid_of(v: u128) -> Guid {
    Guid {
        data1: (v >> 96u128) as u32,
        data2: ((v >> 80u128) & 0xffffu128) as u16,
        data3: ((v >> 64u128) & 0xffffu128) as u16,
        data4: v as u64,
    }
}

/// Relies on windows_core::GUID::from_u128, which splits the number into the
/// top 32 bits, the next two 16-bit groups and the low 64 bits (stored as
/// big-endian bytes, read back here with u64::from_be_bytes).
#[verifier::external_body]
fn guid_from_u128(v: u128) -> (r: Guid)
    ensures
        r == guid_of(v),
{
    let g = windows_core::GUID::from_u128(v);
    Guid { data1: g.data1, data2: g.data2, data3: g.data3, data4: u64::from_be_bytes(g.data4) }
}

impl Guid {
    /// The identifier written as the number `v`.
    pub fn from_u128(v: u128) -> (r: Guid)
        ensures
            r == guid_of(v),
    {
        guid_from_u128(v)
    }
}

/// Class identifier of the meta-host service.
pub const CLSID_CLR_META_HOST: u128 = 0x9280188d_0e8e_4867_b30c_7fa83884e8de;

/// Class identifier of the legacy runtime host.
pub const CLSID_COR_RUNTIME_HOST: u128 = 0xcb2f6723_ab3a_11d2_9c40_00c04fa30a3e;

/// Class identifier of the runtime host that accepts a host control.
pub const CLSID_CLR_RUNTIME_HOST: u128 = 0x90f1a06e_7712_4762_86b5_7a5eba6bdb02;

/// Interface identifier of the assembly manager a host control hands out.
pub const IID_HOST_ASSEMBLY_MANAGER: u128 = 0x613dabd7_62b2_493e_9e65_c1e32a1e0c5e;

/// Interface identifier of the assembly store.
pub const IID_HOST_ASSEMBLY_STORE: u128 = 0x7b102a88_3f7f_496d_8fa2_c35374e01af3;

/// Interface identifier of the identity service.
pub const IID_ASSEMBLY_IDENTITY_MANAGER: u128 = 0x15f0a9da_3ff6_4393_9da9_fdfd284e6972;

} // verus!
