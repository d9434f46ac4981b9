//! The handle of a loose object, and the completion of its payload.

use vstd::prelude::*;
use vstd::slice::*;
use crate::buffer::Buffer;
use crate::error::{Error, ErrorView, InflateError};
use crate::kind::Kind;
use crate::path::{place_of, ObjectPath, ObjectPathView};
use crate::zlib::{run_of, Inflate};

verus! {

/// A loose object whose header is known. Its payload is inflated when it is first
/// asked for, unless the probe of the lookup has inflated it already.
#[derive(Debug)]
pub struct Object {
    kind: Kind,
    size: usize,
    decompressed_data: Buffer,
    compressed_data: Buffer,
    header_size: usize,
    path: Option<ObjectPath>,
    is_decompressed: bool,
}

/// What an [`Object`] holds.
pub struct ObjectView {
    /// The kind that the header declares.
    pub kind: Kind,
    /// The size of the payload that the header declares.
    pub size: nat,
    /// The inflated bytes: the header and payload of a complete object; of any
    /// other, what the probe gave out.
    pub decompressed: Seq<u8>,
    /// The compressed bytes that are still to be inflated.
    pub compressed: Seq<u8>,
    /// The number of bytes that the header takes.
    pub header_size: nat,
    /// The place of the file, kept for a blob.
    pub path: Option<ObjectPathView>,
    /// Whether the payload is inflated.
    pub is_decompressed: bool,
}

impl ObjectView {
    /// What is true of every object: the header lies within the inflated bytes; a
    /// complete object holds its header and payload and nothing else, and no
    /// compressed bytes; the place of the file is kept for blobs and only for them.
    pub open spec fn wf(self) -> bool {
        &&& self.header_size <= self.decompressed.len()
        &&& self.is_decompressed ==> self.decompressed.len() == self.header_size + self.size
            && self.compressed.len() == 0
        &&& (self.path is Some) == (self.kind == Kind::Blob)
    }

    /// The payload of a complete object.
    pub open spec fn payload(self) -> Seq<u8> {
        self.decompressed.skip(self.header_size as int)
    }

    /// This object with `inflated` for its header and payload.
    pub open spec fn completed(self, inflated: Seq<u8>) -> ObjectView {
        ObjectView {
            decompressed: inflated,
            compressed: Seq::empty(),
            is_decompressed: true,
            ..self
        }
    }
}

/// What is wrong with a run of the engine that was to fill `total` bytes, if
/// anything: the run failed, or it did not reach the end of the stream, or it
/// reached it too early.
pub open spec fn completion_fault(total: nat, run: Result<usize, InflateError>, ended: bool)
    -> Option<InflateError> {
    match run {
        Err(why) => Some(why),
        Ok(written) => if written < total {
            if ended {
                Some(InflateError::Short)
            } else {
                Some(InflateError::Incomplete)
            }
        } else if !ended {
            Some(InflateError::Unfinished)
        } else {
            None
        },
    }
}

/// What a request for the payload of `object` gives, and the object as it is
/// afterwards.
///
/// A complete object stays as it is and gives its payload. Of any other, header
/// and payload are inflated from the start of its compressed bytes into as much
/// room as the header declares. If nothing is wrong with that run, the object
/// becomes complete and gives the payload that it now holds; else it stays as it
/// is and the fault is reported.
pub open spec fn parsed_of(object: ObjectView) -> (ObjectView, Result<(Kind, Seq<u8>), ErrorView>) {
    let total = object.header_size + object.size;
    let run = run_of(Seq::empty(), object.compressed, total);
    let fault = if total > isize::MAX {
        Some(InflateError::TooLarge)
    } else {
        completion_fault(total, run.result(), run.ended)
    };
    if object.is_decompressed {
        (object, Ok((object.kind, object.payload())))
    } else if let Some(why) = fault {
        (object, Err(ErrorView::Decompress(why)))
    } else {
        let complete = object.completed(run.written);
        (complete, Ok((complete.kind, complete.payload())))
    }
}

/// The payload of an object with its kind.
pub struct Payload<'a> {
    /// The kind of the object.
    pub kind: Kind,
    /// The bytes after the header.
    pub bytes: &'a [u8],
}

impl View for Object {
    type V = ObjectView;

    closed spec fn view(&self) -> ObjectView {
        ObjectView {
            kind: self.kind,
            size: self.size as nat,
            decompressed: self.decompressed_data@,
            compressed: self.compressed_data@,
            header_size: self.header_size as nat,
            path: place_of(self.path),
            is_decompressed: self.is_decompressed,
        }
    }
}

impl Object {
    /// What is true of every object.
    pub open spec fn wf(&self) -> bool {
        self@.wf()
    }

    /// Puts an object together from its parts.
    pub(crate) fn assemble(
        kind: Kind,
        size: usize,
        header_size: usize,
        decompressed_data: Buffer,
        compressed_data: Buffer,
        path: Option<ObjectPath>,
        is_decompressed: bool,
    ) -> (object: Object)
        ensures
            object@ == (ObjectView {
                kind,
                size: size as nat,
                decompressed: decompressed_data@,
                compressed: compressed_data@,
                header_size: header_size as nat,
                path: place_of(path),
                is_decompressed,
            }),
    {
        Object {
            kind,
            size,
            decompressed_data,
            compressed_data,
            header_size,
            path,
            is_decompressed,
        }
    }

    /// Takes the outcome of a run of the engine that was to inflate header and
    /// payload into `inflated`: `run` is what the run returned and `ended` whether
    /// the engine has seen the end of the stream. Where nothing is wrong with the
    /// run, the object becomes complete and holds `inflated`; else it stays as it
    /// is.
    pub fn complete(&mut self, inflated: Vec<u8>, run: Result<usize, InflateError>, ended: bool) -> (r:
        Result<(), Error>)
        requires
            old(self).wf(),
            !old(self)@.is_decompressed,
            inflated@.len() == old(self)@.header_size + old(self)@.size,
        ensures
            final(self).wf(),
            match completion_fault(inflated@.len(), run, ended) {
                None => r is Ok && final(self)@ == old(self)@.completed(inflated@),
                Some(why) => r matches Err(e) && e@ == ErrorView::Decompress(why) && final(self)@
                    == old(self)@,
            },
    {
        let written = match run {
            Ok(written) => written,
            Err(why) => {
                return Err(Error::Decompress(why));
            },
        };
        if written < inflated.len() {
            if ended {
                return Err(Error::Decompress(InflateError::Short));
            } else {
                return Err(Error::Decompress(InflateError::Incomplete));
            }
        }
        if !ended {
            return Err(Error::Decompress(InflateError::Unfinished));
        }
        self.decompressed_data = Buffer::from_vec(inflated);
        self.compressed_data = Buffer::new();
        self.is_decompressed = true;
        Ok(())
    }

    /// Gives the payload of a tree, a commit or a tag, and inflates it first if that
    /// has not been done: into a buffer of exactly the size of header and payload,
    /// from the start of the compressed bytes, which are let go afterwards.
    pub fn parsed<'a>(&'a mut self) -> (r: Result<Payload<'a>, Error>)
        requires
            old(self).wf(),
            old(self)@.kind != Kind::Blob,
        ensures
            final(self).wf(),
            parsed_of(old(self)@) == (
                final(self)@,
                match r {
                    Ok(payload) => Ok((payload.kind, payload.bytes@)),
                    Err(e) => Err(e@),
                },
            ),
    {
        if !self.is_decompressed {
            let total = match self.header_size.checked_add(self.size) {
                Some(total) => total,
                None => {
                    return Err(Error::Decompress(InflateError::TooLarge));
                },
            };
            if total > isize::MAX as usize {
                return Err(Error::Decompress(InflateError::TooLarge));
            }
            let mut inflated: Vec<u8> = vec![0u8; total];
            let mut engine = Inflate::new();
            let run = engine.all_till_done(self.compressed_data.as_slice(), inflated.as_mut_slice());
            let ended = engine.is_done();
            match self.complete(inflated, run, ended) {
                Ok(()) => {},
                Err(e) => {
                    return Err(e);
                },
            }
        }
        let inflated = self.decompressed_data.as_slice();
        let bytes = slice_subrange(inflated, self.header_size, inflated.len());
        Ok(Payload { kind: self.kind, bytes })
    }

    /// The kind that the header declares.
    pub fn kind(&self) -> (kind: Kind)
        ensures
            kind == self@.kind,
    {
        self.kind
    }

    /// The size of the payload that the header declares.
    pub fn size(&self) -> (size: usize)
        ensures
            size == self@.size,
    {
        self.size
    }

    /// The place of the file, which a blob keeps.
    pub fn path(&self) -> (path: Option<&ObjectPath>)
        ensures
            match path {
                Some(path) => self@.path == Some(path@),
                None => self@.path is None,
            },
    {
        self.path.as_ref()
    }

    /// Whether the payload is inflated.
    pub fn is_decompressed(&self) -> (r: bool)
        ensures
            r == self@.is_decompressed,
    {
        self.is_decompressed
    }
}

/// Asking a second time for the payload gives what the first time gave, and leaves
/// the object as the first time left it, which is complete.
pub proof fn lemma_parsed_twice(object: ObjectView)
    requires
        parsed_of(object).1 is Ok,
    ensures
        parsed_of(parsed_of(object).0) == parsed_of(object),
        parsed_of(object).0.is_decompressed,
{
}

} // verus!
