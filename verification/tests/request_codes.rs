//! The request codes against the bit-exact table of the cryptodev ABI and
//! against the ioctl encoding helper the bindings are used with.

use crypto_ioctls::crypto_ioctls::{
    request_code, CIOCASYMFEAT, CIOCCRYPT, CIOCFSESSION, CIOCGSESSINFO, CIOCGSESSION, CIOCKEY,
    CRIOGET, CRYPT_KOP_SIZE, CRYPT_OP_SIZE, IOC_NONE, IOC_READ, IOC_WRITE, SESSION_INFO_OP_SIZE,
    SESSION_OP_SIZE, U32_SIZE,
};
use crypto_ioctls::ioctls::CRYPTOIO;

#[test]
fn crioget_code() {
    assert_eq!(CRIOGET(), 0x4004_6365);
}

#[test]
fn ciocgsession_code() {
    assert_eq!(CIOCGSESSION(), 0xc030_6366);
}

#[test]
fn ciocfsession_code() {
    assert_eq!(CIOCFSESSION(), 0x4004_6367);
}

#[test]
fn cioccrypt_code() {
    assert_eq!(CIOCCRYPT(), 0xc030_6368);
}

#[test]
fn ciockey_code() {
    assert_eq!(CIOCKEY(), 0xc090_6369);
}

#[test]
fn ciocasymfeat_code() {
    assert_eq!(CIOCASYMFEAT(), 0x8004_636a);
}

#[test]
fn ciocgsessinfo_code() {
    assert_eq!(CIOCGSESSINFO(), 0xc10c_636b);
}

#[test]
fn codes_agree_with_the_ioctl_expression_helper() {
    // The same fields, packed by the helper that the raw bindings use.
    let iowr = IOC_READ | IOC_WRITE;
    assert_eq!(
        CRIOGET(),
        vmm_sys_util::ioctl::ioctl_expr(IOC_WRITE, CRYPTOIO, 101, U32_SIZE)
    );
    assert_eq!(
        CIOCGSESSION(),
        vmm_sys_util::ioctl::ioctl_expr(iowr, CRYPTOIO, 102, SESSION_OP_SIZE)
    );
    assert_eq!(
        CIOCFSESSION(),
        vmm_sys_util::ioctl::ioctl_expr(IOC_WRITE, CRYPTOIO, 103, U32_SIZE)
    );
    assert_eq!(
        CIOCCRYPT(),
        vmm_sys_util::ioctl::ioctl_expr(iowr, CRYPTOIO, 104, CRYPT_OP_SIZE)
    );
    assert_eq!(
        CIOCKEY(),
        vmm_sys_util::ioctl::ioctl_expr(iowr, CRYPTOIO, 105, CRYPT_KOP_SIZE)
    );
    assert_eq!(
        CIOCASYMFEAT(),
        vmm_sys_util::ioctl::ioctl_expr(IOC_READ, CRYPTOIO, 106, U32_SIZE)
    );
    assert_eq!(
        CIOCGSESSINFO(),
        vmm_sys_util::ioctl::ioctl_expr(iowr, CRYPTOIO, 107, SESSION_INFO_OP_SIZE)
    );
}

#[test]
fn direction_fields_agree_with_the_bindings() {
    assert_eq!(IOC_NONE, vmm_sys_util::ioctl::_IOC_NONE);
    assert_eq!(IOC_WRITE, vmm_sys_util::ioctl::_IOC_WRITE);
    assert_eq!(IOC_READ, vmm_sys_util::ioctl::_IOC_READ);
}

#[test]
fn request_code_packs_the_four_fields() {
    assert_eq!(request_code(0, 0, 0, 0), 0);
    assert_eq!(request_code(IOC_READ, CRYPTOIO, 106, 4), 0x8004_636a);
    // The request number sits in the lowest byte.
    assert_eq!(request_code(0, 0, 0xff, 0), 0xff);
    // The driver magic sits one byte above it.
    assert_eq!(request_code(0, 0x63, 0, 0), 0x6300);
}
