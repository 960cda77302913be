//! The cryptodev ioctl request codes and the fixed-layout payload
//! descriptors they transfer.
//!
//! Everything here is dictated by the kernel driver ABI: the request-code
//! encoding follows the Linux `_IOC` scheme, and the descriptor records
//! mirror the driver's C structures field for field.

use vstd::prelude::*;

verus! {

use crate::ioctls::CRYPTOIO;

/// Direction field of a request that transfers no payload.
pub const IOC_NONE: u32 = 0;
/// Direction field of a request whose payload the kernel reads.
pub const IOC_WRITE: u32 = 1;
/// Direction field of a request whose payload the kernel writes.
pub const IOC_READ: u32 = 2;

/// Bit position of the request-number field of a request code.
pub const IOC_NRSHIFT: u32 = 0;
/// Bit position of the driver-magic field of a request code.
pub const IOC_TYPESHIFT: u32 = 8;
/// Bit position of the payload-size field of a request code.
pub const IOC_SIZESHIFT: u32 = 16;
/// Bit position of the direction field of a request code.
pub const IOC_DIRSHIFT: u32 = 30;

/// The Linux ioctl request-code encoding: direction, driver magic, request
/// number and payload size packed into one 32-bit word, widened to the
/// `unsigned long` that the ioctl system call takes.
pub open spec fn ioctl_code(dir: u32, ty: u32, nr: u32, size: u32) -> u64 {
    (((dir << IOC_DIRSHIFT) | (ty << IOC_TYPESHIFT) | (nr << IOC_NRSHIFT)
        | (size << IOC_SIZESHIFT)) as u64)
}

/// Packs the four fields of an ioctl request code.
pub fn request_code(dir: u32, ty: u32, nr: u32, size: u32) -> (r: u64)
    ensures
        r == ioctl_code(dir, ty, nr, size),
{
    (((dir << IOC_DIRSHIFT) | (ty << IOC_TYPESHIFT) | (nr << IOC_NRSHIFT)
        | (size << IOC_SIZESHIFT)) as u64)
}

/// Byte size of the kernel's `session_op` structure on a 64-bit target.
pub const SESSION_OP_SIZE: u32 = 48;
/// Byte size of the kernel's `crypt_op` structure on a 64-bit target.
pub const CRYPT_OP_SIZE: u32 = 48;
/// Byte size of the kernel's `crypt_kop` structure on a 64-bit target.
pub const CRYPT_KOP_SIZE: u32 = 144;
/// Byte size of the kernel's `session_info_op` structure on a 64-bit target.
pub const SESSION_INFO_OP_SIZE: u32 = 268;
/// Byte size of the bare 32-bit payloads (descriptor and session numbers).
pub const U32_SIZE: u32 = 4;

/// Request code asking the driver to clone its descriptor: writes a `u32`.
#[allow(non_snake_case)]
pub fn CRIOGET() -> (r: u64)
    ensures
        r == ioctl_code(IOC_WRITE, CRYPTOIO, 101, U32_SIZE),
        r == 0x4004_6365u64,
{
    let r = request_code(IOC_WRITE, CRYPTOIO, 101, U32_SIZE);
    proof {
        assert(ioctl_code(IOC_WRITE, CRYPTOIO, 101, U32_SIZE) == 0x4004_6365u64)
            by (bit_vector);
    }
    r
}

/// Request code creating an offload session: transfers a `session_op` both ways.
#[allow(non_snake_case)]
pub fn CIOCGSESSION() -> (r: u64)
    ensures
        r == ioctl_code(IOC_READ | IOC_WRITE, CRYPTOIO, 102, SESSION_OP_SIZE),
        r == 0xc030_6366u64,
{
    let r = request_code(IOC_READ | IOC_WRITE, CRYPTOIO, 102, SESSION_OP_SIZE);
    proof {
        assert(ioctl_code(IOC_READ | IOC_WRITE, CRYPTOIO, 102, SESSION_OP_SIZE)
            == 0xc030_6366u64) by (bit_vector);
    }
    r
}

/// Request code tearing a session down: writes the session id as a `u32`.
#[allow(non_snake_case)]
pub fn CIOCFSESSION() -> (r: u64)
    ensures
        r == ioctl_code(IOC_WRITE, CRYPTOIO, 103, U32_SIZE),
        r == 0x4004_6367u64,
{
    let r = request_code(IOC_WRITE, CRYPTOIO, 103, U32_SIZE);
    proof {
        assert(ioctl_code(IOC_WRITE, CRYPTOIO, 103, U32_SIZE) == 0x4004_6367u64)
            by (bit_vector);
    }
    r
}

/// Request code submitting a symmetric operation: transfers a `crypt_op`
/// both ways.
#[allow(non_snake_case)]
pub fn CIOCCRYPT() -> (r: u64)
    ensures
        r == ioctl_code(IOC_READ | IOC_WRITE, CRYPTOIO, 104, CRYPT_OP_SIZE),
        r == 0xc030_6368u64,
{
    let r = request_code(IOC_READ | IOC_WRITE, CRYPTOIO, 104, CRYPT_OP_SIZE);
    proof {
        assert(ioctl_code(IOC_READ | IOC_WRITE, CRYPTOIO, 104, CRYPT_OP_SIZE)
            == 0xc030_6368u64) by (bit_vector);
    }
    r
}

/// Request code submitting an asymmetric key operation: transfers a
/// `crypt_kop` both ways.
#[allow(non_snake_case)]
pub fn CIOCKEY() -> (r: u64)
    ensures
        r == ioctl_code(IOC_READ | IOC_WRITE, CRYPTOIO, 105, CRYPT_KOP_SIZE),
        r == 0xc090_6369u64,
{
    let r = request_code(IOC_READ | IOC_WRITE, CRYPTOIO, 105, CRYPT_KOP_SIZE);
    proof {
        assert(ioctl_code(IOC_READ | IOC_WRITE, CRYPTOIO, 105, CRYPT_KOP_SIZE)
            == 0xc090_6369u64) by (bit_vector);
    }
    r
}

/// Request code querying asymmetric capabilities: reads a `u32` bit mask.
#[allow(non_snake_case)]
pub fn CIOCASYMFEAT() -> (r: u64)
    ensures
        r == ioctl_code(IOC_READ, CRYPTOIO, 106, U32_SIZE),
        r == 0x8004_636au64,
{
    let r = request_code(IOC_READ, CRYPTOIO, 106, U32_SIZE);
    proof {
        assert(ioctl_code(IOC_READ, CRYPTOIO, 106, U32_SIZE) == 0x8004_636au64)
            by (bit_vector);
    }
    r
}

/// Request code introspecting a session: transfers a `session_info_op`
/// both ways.
#[allow(non_snake_case)]
pub fn CIOCGSESSINFO() -> (r: u64)
    ensures
        r == ioctl_code(IOC_READ | IOC_WRITE, CRYPTOIO, 107, SESSION_INFO_OP_SIZE),
        r == 0xc10c_636bu64,
{
    let r = request_code(IOC_READ | IOC_WRITE, CRYPTOIO, 107, SESSION_INFO_OP_SIZE);
    proof {
        assert(ioctl_code(IOC_READ | IOC_WRITE, CRYPTOIO, 107, SESSION_INFO_OP_SIZE)
            == 0xc10c_636bu64) by (bit_vector);
    }
    r
}

/// The encoding loses nothing: as long as the four fields stay within the
/// widths the kernel gives them (2, 8, 8 and 14 bits), each one can be
/// read back out of the packed code, so two requests differing in any
/// field get different codes.
pub proof fn lemma_ioctl_code_fields_recoverable(dir: u32, ty: u32, nr: u32, size: u32)
    by (bit_vector)
    requires
        dir < 4,
        ty < 0x100,
        nr < 0x100,
        size < 0x4000,
    ensures
        ioctl_code(dir, ty, nr, size) >> IOC_DIRSHIFT == dir as u64,
        (ioctl_code(dir, ty, nr, size) >> IOC_TYPESHIFT) & 0xff == ty as u64,
        (ioctl_code(dir, ty, nr, size) >> IOC_NRSHIFT) & 0xff == nr as u64,
        (ioctl_code(dir, ty, nr, size) >> IOC_SIZESHIFT) & 0x3fff == size as u64,
{
}

/// Rounds `off` up to the next multiple of `align`, as C layout does
/// between fields.
pub open spec fn align_up(off: int, align: int) -> int
    recommends
        align > 0,
{
    ((off + align - 1) / align) * align
}

/// End offset of a field of `size` bytes aligned to `align`, appended to a
/// C structure whose fields so far end at `off`.
pub open spec fn field_end(off: int, size: int, align: int) -> int
    recommends
        align > 0,
{
    align_up(off, align) + size
}

/// The byte size recorded for the kernel's `session_op` follows from its C
/// layout on a 64-bit target: three `u32` fields, a pointer, a `u32`, a
/// pointer and a final `u32`, padded to the 8-byte structure alignment.
pub proof fn lemma_session_op_size()
    ensures
        SESSION_OP_SIZE == align_up(
            field_end(
                field_end(
                    field_end(
                        field_end(
                            field_end(field_end(field_end(0, 4, 4), 4, 4), 4, 4),
                            8,
                            8,
                        ),
                        4,
                        4,
                    ),
                    8,
                    8,
                ),
                4,
                4,
            ),
            8,
        ),
{
}

/// The byte size recorded for the kernel's `crypt_op` follows from its C
/// layout on a 64-bit target: a `u32`, two `u16` fields, a `u32` and four
/// pointers.
pub proof fn lemma_crypt_op_size()
    ensures
        CRYPT_OP_SIZE == align_up(
            field_end(
                field_end(
                    field_end(
                        field_end(
                            field_end(
                                field_end(field_end(field_end(0, 4, 4), 2, 2), 2, 2),
                                4,
                                4,
                            ),
                            8,
                            8,
                        ),
                        8,
                        8,
                    ),
                    8,
                    8,
                ),
                8,
                8,
            ),
            8,
        ),
{
}

/// The byte size recorded for the kernel's `crypt_kop` follows from its C
/// layout on a 64-bit target: two `u32` fields, two `u16` fields, a `u32`
/// pad, then eight 16-byte parameter entries (each a pointer padded with a
/// `u32` bit count).
pub proof fn lemma_crypt_kop_size()
    ensures
        align_up(field_end(field_end(0, 8, 8), 4, 4), 8) == 16,
        CRYPT_KOP_SIZE == align_up(
            field_end(
                field_end(
                    field_end(field_end(field_end(field_end(0, 4, 4), 4, 4), 2, 2), 2, 2),
                    4,
                    4,
                ),
                8 * 16int,
                8,
            ),
            8,
        ),
{
}

/// The byte size recorded for the kernel's `session_info_op` follows from
/// its C layout: a `u32`, two 128-byte name blocks, a `u16` and a `u32`.
pub proof fn lemma_session_info_op_size()
    ensures
        SESSION_INFO_OP_SIZE == align_up(
            field_end(
                field_end(field_end(field_end(field_end(0, 4, 4), 128, 1), 128, 1), 2, 2),
                4,
                4,
            ),
            4,
        ),
{
}

/// Direction value of a symmetric operation that enciphers.
pub const COP_ENCRYPT: u16 = 0;
/// Direction value of a symmetric operation that deciphers.
pub const COP_DECRYPT: u16 = 1;

/// Session configuration, mirroring the kernel's `session_op` field for
/// field. The caller fills the algorithm and key fields; on success the
/// kernel assigns `ses`. Pointer-valued fields carry the user-space
/// address as a plain 64-bit number.
#[derive(Clone, Copy, Debug, PartialEq, Eq, Structural)]
pub struct SessionOp {
    /// Symmetric cipher identifier, or zero for none.
    pub cipher: u32,
    /// MAC identifier, or zero for none.
    pub mac: u32,
    /// Length in bytes of the cipher key.
    pub keylen: u32,
    /// Address of the cipher key bytes.
    pub key: u64,
    /// Length in bytes of the MAC key.
    pub mackeylen: u32,
    /// Address of the MAC key bytes.
    pub mackey: u64,
    /// Kernel-assigned session identifier, filled on successful creation.
    pub ses: u32,
}

/// One symmetric operation, mirroring the kernel's `crypt_op` field for
/// field; fully caller-populated and consumed by a single call.
#[derive(Clone, Copy, Debug, PartialEq, Eq, Structural)]
pub struct CryptOp {
    /// Identifier of the session the operation runs against.
    pub ses: u32,
    /// Direction: `COP_ENCRYPT` or `COP_DECRYPT`.
    pub op: u16,
    /// Operation flags.
    pub flags: u16,
    /// Length in bytes of the source data.
    pub len: u32,
    /// Address of the source bytes.
    pub src: u64,
    /// Address of the destination bytes the kernel writes.
    pub dst: u64,
    /// Address of the MAC output bytes, or zero.
    pub mac: u64,
    /// Address of the initialization vector, or zero.
    pub iv: u64,
}

/// One parameter of an asymmetric key operation, mirroring the kernel's
/// `crparam`: an address and a width in bits.
#[derive(Clone, Copy, Debug, PartialEq, Eq, Structural)]
pub struct CrParam {
    /// Address of the parameter bytes.
    pub p: u64,
    /// Width of the parameter in bits.
    pub nbits: u32,
}

/// An asymmetric key operation, mirroring the kernel's `crypt_kop` field
/// for field.
#[derive(Clone, Copy, Debug, PartialEq, Eq)]
pub struct CryptKop {
    /// Asymmetric operation identifier.
    pub crk_op: u32,
    /// Status word the kernel fills.
    pub crk_status: u32,
    /// Number of input parameters.
    pub crk_iparams: u16,
    /// Number of output parameters.
    pub crk_oparams: u16,
    /// Explicit pad word of the kernel layout.
    pub crk_pad1: u32,
    /// The operation's parameters; the kernel reads the first
    /// `crk_iparams` and writes the following `crk_oparams`.
    pub crk_param: [CrParam; 8],
}

/// Verbose algorithm names the kernel reports for one session half,
/// mirroring the kernel's `alg_info`: two fixed 64-byte name buffers.
#[derive(Clone, Copy, Debug, PartialEq, Eq)]
pub struct AlgInfo {
    /// Algorithm name, NUL-padded.
    pub cra_name: [u8; 64],
    /// Driver name, NUL-padded.
    pub cra_driver_name: [u8; 64],
}

/// Session introspection reply, mirroring the kernel's `session_info_op`
/// field for field.
#[derive(Clone, Copy, Debug, PartialEq, Eq)]
pub struct SessionInfoOp {
    /// Identifier of the session being inspected.
    pub ses: u32,
    /// Names reported for the cipher half.
    pub cipher_info: AlgInfo,
    /// Names reported for the MAC half.
    pub hash_info: AlgInfo,
    /// Alignment the driver demands of operation buffers.
    pub alignmask: u16,
    /// Capability flags of the session.
    pub flags: u32,
}

} // verus!
