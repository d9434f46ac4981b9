//! The lookup of a loose object, one step of work on its file at a time.
//!
//! The library does not touch files. A [`Lookup`] says what is to be done with
//! the file of the object next, and takes what came of it.

use vstd::prelude::*;
use vstd::slice::*;
use crate::buffer::Buffer;
use crate::error::{Error, ErrorView, OPEN, READ, READ_METADATA};
use crate::header::{header_of, lemma_header_within, parse_header};
use crate::kind::Kind;
use crate::object::{Object, ObjectView};
use crate::path::{object_path, place_of, sha1_path, ObjectPath, ObjectPathView};
use crate::zlib::{inflated, report_of, Inflate, Signal};

verus! {

/// How many bytes of the file a lookup reads before it knows the header.
pub const HEADER_READ_COMPRESSED_BYTES: usize = 256;

/// How many inflated bytes a lookup makes room for before it knows the header.
pub const HEADER_READ_UNCOMPRESSED_BYTES: usize = 512;

/// A store of loose objects.
#[derive(Debug)]
pub struct Db {
    /// The directory under which the objects lie.
    pub path: String,
}

/// What is to be done next with the file of the object.
#[derive(Clone, Copy, Debug, PartialEq, Eq, Structural)]
pub enum Request {
    /// Open the file.
    Open,
    /// Read once from the file, at most this many bytes.
    Read(usize),
    /// Ask for the size of the file.
    Metadata,
    /// Read exactly this many bytes from the file.
    ReadExact(usize),
}

/// What came of a request.
#[derive(Debug)]
pub enum Event {
    /// The file is open.
    Opened,
    /// These bytes were read.
    Read(Vec<u8>),
    /// The file has this size.
    Size(usize),
    /// The file system failed in this way.
    Failed(std::io::ErrorKind),
}

/// An [`Event`] with its bytes as a sequence.
pub enum EventView {
    Opened,
    Read(Seq<u8>),
    Size(usize),
    Failed(std::io::ErrorKind),
}

impl View for Event {
    type V = EventView;

    open spec fn view(&self) -> EventView {
        match *self {
            Event::Opened => EventView::Opened,
            Event::Read(bytes) => EventView::Read(bytes@),
            Event::Size(size) => EventView::Size(size),
            Event::Failed(cause) => EventView::Failed(cause),
        }
    }
}

/// What the probe of a file has found.
#[derive(Debug)]
struct Probe {
    kind: Kind,
    size: usize,
    header_size: usize,
    decompressed: Buffer,
    done: bool,
    compressed: Buffer,
}

/// What the probe of a file has found.
pub struct ProbeView {
    /// The kind that the header declares.
    pub kind: Kind,
    /// The size of the payload that the header declares.
    pub size: nat,
    /// The number of bytes that the header takes.
    pub header_size: nat,
    /// The bytes that the engine has inflated.
    pub decompressed: Seq<u8>,
    /// Whether the engine has seen the end of the stream.
    pub done: bool,
    /// The bytes that were read from the file.
    pub compressed: Seq<u8>,
}

impl ProbeView {
    /// The header lies within what the engine has inflated.
    pub open spec fn wf(self) -> bool {
        self.header_size <= self.decompressed.len()
    }

    /// Whether the probe has inflated the whole object: the stream has ended, and
    /// with as many bytes as the header declares.
    pub open spec fn complete(self) -> bool {
        self.done && self.decompressed.len() == self.header_size + self.size
    }
}

/// The object that comes of a probe once all its `compressed` bytes are there. It
/// holds what the probe has inflated. If that is the whole object, it holds no
/// compressed bytes.
pub open spec fn finished(
    probe: ProbeView,
    compressed: Seq<u8>,
    path: Option<ObjectPathView>,
) -> ObjectView {
    ObjectView {
        kind: probe.kind,
        size: probe.size,
        decompressed: probe.decompressed,
        compressed: if probe.complete() {
            Seq::empty()
        } else {
            compressed
        },
        header_size: probe.header_size,
        path,
        is_decompressed: probe.complete(),
    }
}

/// How far a lookup has come.
#[derive(Debug)]
enum State {
    Opening,
    Probing,
    Sizing(Probe),
    Reading(Probe, usize),
}

/// How far a lookup has come.
pub enum Stage {
    /// The file is to be opened.
    Opening,
    /// The first bytes of the file are to be read.
    Probing,
    /// The header is known and the size of the file is asked for.
    Sizing(ProbeView),
    /// This many bytes of the file are still to be read.
    Reading(ProbeView, usize),
}

/// A lookup that is under way.
#[derive(Debug)]
pub struct Lookup {
    path: ObjectPath,
    state: State,
}

/// What a [`Lookup`] holds.
pub struct LookupView {
    /// The place of the file.
    pub path: ObjectPathView,
    /// How far the lookup has come.
    pub stage: Stage,
}

impl LookupView {
    /// What is true of every lookup: once the header is known, it is not that of a
    /// blob, and the probe is as it should be; the bytes still to be read are some,
    /// and with those read they can be counted.
    pub open spec fn wf(self) -> bool {
        match self.stage {
            Stage::Opening => true,
            Stage::Probing => true,
            Stage::Sizing(probe) => probe.wf() && probe.kind != Kind::Blob,
            Stage::Reading(probe, rest) => probe.wf() && probe.kind != Kind::Blob && rest > 0
                && probe.compressed.len() + rest <= usize::MAX,
        }
    }

    /// What the lookup asks for.
    pub open spec fn request(self) -> Request {
        match self.stage {
            Stage::Opening => Request::Open,
            Stage::Probing => Request::Read(HEADER_READ_COMPRESSED_BYTES),
            Stage::Sizing(_) => Request::Metadata,
            Stage::Reading(_, rest) => Request::ReadExact(rest),
        }
    }

    /// The name of what the lookup asks for, as an error carries it.
    pub open spec fn action(self) -> Seq<char> {
        match self.stage {
            Stage::Opening => OPEN@,
            Stage::Probing => READ@,
            Stage::Sizing(_) => READ_METADATA@,
            Stage::Reading(_, _) => READ@,
        }
    }
}

/// Where a lookup stands after an event.
#[derive(Debug)]
pub enum Progress {
    /// It goes on, and asks for something.
    Continue(Lookup),
    /// It has found the object.
    Found(Object),
    /// It has failed.
    Failed(Error),
}

/// A [`Progress`] by what it holds.
pub enum ProgressView {
    Continue(LookupView),
    Found(ObjectView),
    Failed(ErrorView),
}

impl View for Probe {
    type V = ProbeView;

    closed spec fn view(&self) -> ProbeView {
        ProbeView {
            kind: self.kind,
            size: self.size as nat,
            header_size: self.header_size as nat,
            decompressed: self.decompressed@,
            done: self.done,
            compressed: self.compressed@,
        }
    }
}

impl View for Lookup {
    type V = LookupView;

    closed spec fn view(&self) -> LookupView {
        LookupView {
            path: self.path@,
            stage: match self.state {
                State::Opening => Stage::Opening,
                State::Probing => Stage::Probing,
                State::Sizing(probe) => Stage::Sizing(probe@),
                State::Reading(probe, rest) => Stage::Reading(probe@, rest),
            },
        }
    }
}

impl View for Progress {
    type V = ProgressView;

    open spec fn view(&self) -> ProgressView {
        match *self {
            Progress::Continue(lookup) => ProgressView::Continue(lookup@),
            Progress::Found(object) => ProgressView::Found(object@),
            Progress::Failed(e) => ProgressView::Failed(e@),
        }
    }
}

impl ProgressView {
    /// The lookup or the object that it holds is as every one is.
    pub open spec fn wf(self) -> bool {
        match self {
            ProgressView::Continue(lookup) => lookup.wf(),
            ProgressView::Found(object) => object.wf(),
            ProgressView::Failed(_) => true,
        }
    }
}

/// Where a lookup stands once the probe is made: `bytes` were read from the file
/// at `path`, and the engine has inflated them to `decompressed` and has or has
/// not seen the end of the stream.
///
/// A header that cannot be read fails the lookup. A blob is found at once, with
/// the place of its file. For any other kind the size of the file is asked for.
pub open spec fn probed_spec(
    path: ObjectPathView,
    bytes: Seq<u8>,
    decompressed: Seq<u8>,
    done: bool,
) -> ProgressView {
    match header_of(decompressed) {
        Err(fault) => ProgressView::Failed(fault),
        Ok((kind, size, header_size)) => {
            let probe = ProbeView {
                kind,
                size: size as nat,
                header_size: header_size as nat,
                decompressed,
                done,
                compressed: bytes,
            };
            if kind == Kind::Blob {
                ProgressView::Found(finished(probe, bytes, Some(path)))
            } else {
                ProgressView::Continue(LookupView { path, stage: Stage::Sizing(probe) })
            }
        },
    }
}

/// Where a lookup stands after the probe of `bytes`, the first bytes of the file
/// at `path`: they are inflated by a decoder at the start of its stream into the
/// room for the header. If that fails, the lookup fails and the error names the
/// file; else the header is read from what was inflated.
pub open spec fn probe_spec(path: ObjectPathView, bytes: Seq<u8>) -> ProgressView {
    let (step, decompressed) = inflated(
        Seq::empty(),
        bytes,
        HEADER_READ_UNCOMPRESSED_BYTES as nat,
    );
    match report_of(step.signal) {
        Err(why) => ProgressView::Failed(ErrorView::DecompressFile(why, path)),
        Ok(_) => probed_spec(path, bytes, decompressed, step.signal == Signal::StreamEnd),
    }
}

/// Where a lookup stands after an event.
///
/// A failure of the file system fails the lookup, and the error names what was
/// asked for. An open file is probed next, and the bytes that are read then are
/// taken as [`probe_spec`] says. Once the size of the file is known, the object is
/// found if all of the file has been read, and the rest is asked for if not.
/// With the rest read, the object is found. An event that does not answer what
/// was asked for leaves the lookup where it is.
pub open spec fn advanced(lookup: LookupView, event: EventView) -> ProgressView {
    match (lookup.stage, event) {
        (_, EventView::Failed(cause)) => ProgressView::Failed(
            ErrorView::Io(cause, lookup.action(), lookup.path),
        ),
        (Stage::Opening, EventView::Opened) => ProgressView::Continue(
            LookupView { path: lookup.path, stage: Stage::Probing },
        ),
        (Stage::Probing, EventView::Read(bytes)) => if bytes.len()
            <= HEADER_READ_COMPRESSED_BYTES {
            probe_spec(lookup.path, bytes)
        } else {
            ProgressView::Continue(lookup)
        },
        (Stage::Sizing(probe), EventView::Size(size)) => if size <= probe.compressed.len() {
            ProgressView::Found(finished(probe, probe.compressed, None))
        } else {
            ProgressView::Continue(
                LookupView {
                    path: lookup.path,
                    stage: Stage::Reading(probe, (size - probe.compressed.len()) as usize),
                },
            )
        },
        (Stage::Reading(probe, rest), EventView::Read(bytes)) => if bytes.len() == rest {
            ProgressView::Found(finished(probe, probe.compressed + bytes, None))
        } else {
            ProgressView::Continue(lookup)
        },
        _ => ProgressView::Continue(lookup),
    }
}

impl Db {
    /// The store under `path`.
    pub fn at(path: String) -> (db: Db)
        ensures
            db.path@ == path@,
    {
        Db { path }
    }

    /// Begins the lookup of the object `id`: the file at its place is to be opened.
    pub fn find(&self, id: &[u8; 20]) -> (lookup: Lookup)
        ensures
            lookup@ == (LookupView { path: object_path(id@, self.path@), stage: Stage::Opening }),
            lookup@.wf(),
    {
        Lookup { path: sha1_path(id, self.path.clone()), state: State::Opening }
    }
}

/// Puts the object together that a probe and the `rest` of the file give.
fn finish(probe: Probe, rest: &[u8], path: Option<ObjectPath>) -> (object: Object)
    requires
        probe@.wf(),
        (path is Some) == (probe@.kind == Kind::Blob),
        probe@.compressed.len() + rest@.len() <= usize::MAX,
    ensures
        object@ == finished(probe@, probe@.compressed + rest@, place_of(path)),
        object.wf(),
{
    let Probe { kind, size, header_size, decompressed, done, compressed } = probe;
    let length = decompressed.as_slice().len();
    let complete = match header_size.checked_add(size) {
        Some(total) => done && length == total,
        None => false,
    };
    if complete {
        Object::assemble(kind, size, header_size, decompressed, Buffer::new(), path, true)
    } else if rest.len() == 0 {
        assert(compressed@ + rest@ =~= compressed@);
        Object::assemble(kind, size, header_size, decompressed, compressed, path, false)
    } else {
        let held = compressed.as_slice();
        let mut all: Vec<u8> = Vec::with_capacity(held.len() + rest.len());
        all.extend_from_slice(held);
        all.extend_from_slice(rest);
        assert(all@ =~= compressed@ + rest@);
        Object::assemble(kind, size, header_size, decompressed, Buffer::from_vec(all), path, false)
    }
}

impl Lookup {
    /// The place of the file of the object.
    pub fn path(&self) -> (path: &ObjectPath)
        ensures
            path@ == self@.path,
    {
        &self.path
    }

    /// What is to be done next with the file.
    pub fn request(&self) -> (request: Request)
        ensures
            request == self@.request(),
    {
        match &self.state {
            State::Opening => Request::Open,
            State::Probing => Request::Read(HEADER_READ_COMPRESSED_BYTES),
            State::Sizing(_) => Request::Metadata,
            State::Reading(_, rest) => Request::ReadExact(*rest),
        }
    }

    /// Takes the outcome of the probe: `bytes` were read from the file at `path`,
    /// the engine has inflated them to `decompressed`, and `done` says whether it
    /// has seen the end of the stream. The header is read from `decompressed`.
    pub fn probed(path: ObjectPath, bytes: &[u8], decompressed: &[u8], done: bool) -> (r: Progress)
        ensures
            r@ == probed_spec(path@, bytes@, decompressed@, done),
            r@.wf(),
    {
        proof {
            assert(bytes@.len() == bytes.len());
            assert(decompressed@.len() == decompressed.len());
            lemma_header_within(decompressed@);
        }
        let (kind, size, header_size) = match parse_header(decompressed) {
            Ok(header) => header,
            Err(e) => {
                return Progress::Failed(e);
            },
        };
        let probe = Probe {
            kind,
            size,
            header_size,
            decompressed: Buffer::from_slice(decompressed),
            done,
            compressed: Buffer::from_slice(bytes),
        };
        match kind {
            Kind::Blob => {
                let nothing: Vec<u8> = Vec::new();
                assert(bytes@ + nothing@ =~= bytes@);
                Progress::Found(finish(probe, nothing.as_slice(), Some(path)))
            },
            _ => Progress::Continue(Lookup { path, state: State::Sizing(probe) }),
        }
    }

    /// Inflates the first bytes of the file as far as the room for the header
    /// goes, and reads the header from what came out.
    fn probe(path: ObjectPath, bytes: Vec<u8>) -> (r: Progress)
        ensures
            r@ == probe_spec(path@, bytes@),
            r@.wf(),
            r@ matches ProgressView::Found(object) ==> object.decompressed.len()
                <= HEADER_READ_UNCOMPRESSED_BYTES,
    {
        let mut room = [0u8; HEADER_READ_UNCOMPRESSED_BYTES];
        let mut engine = Inflate::new();
        match engine.once(bytes.as_slice(), &mut room) {
            Err(why) => Progress::Failed(Error::DecompressFile(why, path)),
            Ok((_, _, produced)) => {
                let decompressed = slice_subrange(room.as_slice(), 0, produced);
                assert(decompressed@ =~= inflated(
                    Seq::empty(),
                    bytes@,
                    HEADER_READ_UNCOMPRESSED_BYTES as nat,
                ).1);
                Self::probed(path, bytes.as_slice(), decompressed, engine.is_done())
            },
        }
    }

    /// Takes what came of the request and says where the lookup stands now.
    pub fn advance(self, event: Event) -> (r: Progress)
        requires
            self@.wf(),
        ensures
            r@ == advanced(self@, event@),
            r@.wf(),
            self@.stage is Probing ==> (r@ matches ProgressView::Found(object)
                ==> object.decompressed.len() <= HEADER_READ_UNCOMPRESSED_BYTES),
    {
        let Lookup { path, state } = self;
        match event {
            Event::Failed(cause) => {
                let action = match state {
                    State::Opening => OPEN,
                    State::Probing => READ,
                    State::Sizing(_) => READ_METADATA,
                    State::Reading(_, _) => READ,
                };
                Progress::Failed(Error::Io(cause, action, path))
            },
            Event::Opened => match state {
                State::Opening => Progress::Continue(Lookup { path, state: State::Probing }),
                other => Progress::Continue(Lookup { path, state: other }),
            },
            Event::Read(bytes) => match state {
                State::Probing => {
                    if bytes.len() <= HEADER_READ_COMPRESSED_BYTES {
                        Self::probe(path, bytes)
                    } else {
                        Progress::Continue(Lookup { path, state: State::Probing })
                    }
                },
                State::Reading(probe, rest) => {
                    if bytes.len() == rest {
                        Progress::Found(finish(probe, bytes.as_slice(), None))
                    } else {
                        Progress::Continue(Lookup { path, state: State::Reading(probe, rest) })
                    }
                },
                other => Progress::Continue(Lookup { path, state: other }),
            },
            Event::Size(size) => match state {
                State::Sizing(probe) => {
                    let have = probe.compressed.as_slice().len();
                    if size <= have {
                        let nothing: Vec<u8> = Vec::new();
                        assert(probe@.compressed + nothing@ =~= probe@.compressed);
                        Progress::Found(finish(probe, nothing.as_slice(), None))
                    } else {
                        Progress::Continue(
                            Lookup { path, state: State::Reading(probe, size - have) },
                        )
                    }
                },
                other => Progress::Continue(Lookup { path, state: other }),
            },
        }
    }
}

/// A blob is found by the probe: where the probe has inflated the header of a
/// blob, the lookup ends, whatever size the header declares. The object holds
/// the place of the file, what the probe inflated and at most the bytes that the
/// probe read.
pub proof fn lemma_blob_is_found_by_probe(
    path: ObjectPathView,
    bytes: Seq<u8>,
    decompressed: Seq<u8>,
    done: bool,
)
    requires
        header_of(decompressed) matches Ok((kind, _, _)) && kind == Kind::Blob,
    ensures
        probed_spec(path, bytes, decompressed, done) matches ProgressView::Found(object)
            && object.path == Some(path) && object.decompressed == decompressed
            && object.compressed.len() <= bytes.len(),
{
}

/// A blob is found by nothing but the probe: a lookup that finds a blob was
/// waiting for the first bytes of the file, so that nothing was read before and
/// nothing is read after them, and the object holds no more compressed bytes
/// than a probe reads.
pub proof fn lemma_blob_is_found_while_probing(lookup: LookupView, event: EventView)
    requires
        lookup.wf(),
        advanced(lookup, event) matches ProgressView::Found(object) && object.kind == Kind::Blob,
    ensures
        lookup.stage is Probing,
        lookup.request() == Request::Read(HEADER_READ_COMPRESSED_BYTES),
        advanced(lookup, event) matches ProgressView::Found(object) && object.path == Some(
            lookup.path,
        ) && object.compressed.len() <= HEADER_READ_COMPRESSED_BYTES,
{
}

} // verus!
