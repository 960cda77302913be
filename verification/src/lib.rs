//! Typed access to the Linux cryptodev character device.
//!
//! The crate is split in two layers. [`crypto_ioctls`] holds the pure,
//! machine-checked part of the driver ABI: the bit-exact ioctl request
//! codes, the byte sizes of the kernel's fixed-layout payload structures,
//! and plain records mirroring those structures field for field.
//! [`ioctls`] holds the device-handle logic: how an open or ioctl return
//! value and the captured OS error code turn into the caller-visible
//! outcome. The system calls themselves live with the embedding program;
//! every decision made on their results is verified here.

pub mod crypto_ioctls;
pub mod ioctls;
