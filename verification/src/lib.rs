//! A boundary layer for invoking a memory-hard key-derivation primitive from
//! a host that shares one flat byte arena with this library.
//!
//! The library manages the arena through which all inputs and outputs cross
//! (`arena`), marshals untyped integer codes into a typed algorithm, version
//! and cost selection (`codec`), and exposes the hash and verify entry points
//! that run the derivation on the marshalled inputs (`kdf`). The derivation
//! primitive itself is an outside collaborator, reached through a small set
//! of trusted wrappers in `kdf`.

pub mod arena;
pub mod codec;
pub mod errors;
pub mod kdf;
