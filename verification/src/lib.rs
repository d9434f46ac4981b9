//! Read access to loose objects of a content-addressed object store.
//!
//! A loose object is one file that holds, compressed in zlib format,
//! `"<kind> <size>\0<payload>"`. The library maps an object id to the place of
//! its file ([`path`]), learns kind and size from a bounded probe of the
//! compressed bytes ([`lookup`], [`header`]), and inflates the payload only when
//! it is asked for ([`object`], [`zlib`]). Of a blob nothing is read beyond the
//! probe: its handle keeps the place of the file.
//!
//! The library does not touch the file system. A lookup says what is to be done
//! with the file next, and is told what came of it.

pub mod buffer;
pub mod error;
pub mod header;
pub mod kind;
pub mod lookup;
pub mod number;
pub mod object;
pub mod path;
pub mod zlib;
