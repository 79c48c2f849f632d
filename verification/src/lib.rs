//! Verified core of an ext2/3/4 filesystem binding built on lwext4.
//!
//! The library holds the decisions that surround the lwext4 C calls: option
//! handling for `mkfs`, the translation of flags, file types and seek origins
//! into lwext4's raw constants, the naming of devices and mount points, the
//! composition of full paths, the interpretation of the C library's return
//! codes and out-parameters, and the multi-step protocols (mount, unmount,
//! extent enumeration, extended attributes) as state machines. The C calls
//! themselves are performed by the caller, which feeds their results back.
#![allow(non_camel_case_types)]

pub mod sys;
pub mod types;
pub mod error;
pub mod mkfs;
pub mod names;
pub mod text;
pub mod xattr;
pub mod calls;
pub mod fs;
pub mod mount;
pub mod ops;
