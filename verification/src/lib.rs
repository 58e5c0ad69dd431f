//! A pluggable font-data-loading subsystem: applications supply font bytes
//! from arbitrary sources to a font engine through a registered callback
//! object identified by an opaque, application-defined key.
//!
//! The engine itself is modelled in-process ([`factory::Factory`]): the
//! registration table, the loader bridge callback, and the font-file
//! classification pipeline are all ordinary verified code.

pub mod enums;
pub mod error;
pub mod factory;
pub mod font_file;
pub mod key;
pub mod stream;
