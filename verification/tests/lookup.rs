use git_odb::error::{Error, InflateError, INVALID_SIZE, MISSING_NUL, OPEN, READ, READ_METADATA};
use git_odb::kind::Kind;
use git_odb::lookup::{
    Db, Event, Lookup, Progress, Request, HEADER_READ_COMPRESSED_BYTES,
    HEADER_READ_UNCOMPRESSED_BYTES,
};
use git_odb::number::IntegerErrorKind;
use git_odb::object::Object;
use git_odb::path::{sha1_path, ObjectPath};
use miniz_oxide::deflate::compress_to_vec_zlib;
use std::io::ErrorKind;

const ID: [u8; 20] = [0x5a; 20];

fn noise(count: usize) -> Vec<u8> {
    let mut state: u32 = 0x9e37_79b9;
    let mut bytes = Vec::with_capacity(count);
    for _ in 0..count {
        state = state.wrapping_mul(1_664_525).wrapping_add(1_013_904_223);
        bytes.push((state >> 24) as u8);
    }
    bytes
}

fn loose(kind: &str, payload: &[u8]) -> Vec<u8> {
    let mut object = format!("{} {}\0", kind, payload.len()).into_bytes();
    object.extend_from_slice(payload);
    compress_to_vec_zlib(&object, 6)
}

fn place() -> ObjectPath {
    sha1_path(&ID, String::from("objects"))
}

fn answer(request: Request, file: Option<&[u8]>, at: &mut usize) -> Event {
    let file = match file {
        Some(file) => file,
        None => return Event::Failed(ErrorKind::NotFound),
    };
    match request {
        Request::Open => Event::Opened,
        Request::Read(limit) => {
            let end = file.len().min(*at + limit);
            let bytes = file[*at..end].to_vec();
            *at = end;
            Event::Read(bytes)
        }
        Request::Metadata => Event::Size(file.len()),
        Request::ReadExact(count) => {
            if *at + count > file.len() {
                return Event::Failed(ErrorKind::UnexpectedEof);
            }
            let bytes = file[*at..*at + count].to_vec();
            *at += count;
            Event::Read(bytes)
        }
    }
}

fn run(file: Option<&[u8]>) -> (Result<Object, Error>, Vec<Request>) {
    let mut lookup = Db::at(String::from("objects")).find(&ID);
    let mut asked = Vec::new();
    let mut at = 0;
    loop {
        let request = lookup.request();
        asked.push(request);
        match lookup.advance(answer(request, file, &mut at)) {
            Progress::Continue(next) => lookup = next,
            Progress::Found(object) => return (Ok(object), asked),
            Progress::Failed(e) => return (Err(e), asked),
        }
    }
}

fn sizing(file: &[u8]) -> Lookup {
    let lookup = Db::at(String::from("objects")).find(&ID);
    let lookup = match lookup.advance(Event::Opened) {
        Progress::Continue(next) => next,
        other => panic!("{:?}", other),
    };
    let probe = file[..file.len().min(HEADER_READ_COMPRESSED_BYTES)].to_vec();
    match lookup.advance(Event::Read(probe)) {
        Progress::Continue(next) => next,
        other => panic!("{:?}", other),
    }
}

#[test]
fn small_commit_is_complete_after_lookup() {
    let payload = b"tree 1234\nauthor a <a@b> 0 +0000\n\nmessage\n";
    let file = loose("commit", payload);
    assert!(file.len() <= HEADER_READ_COMPRESSED_BYTES);
    let (found, asked) = run(Some(&file));
    assert_eq!(asked, vec![Request::Open, Request::Read(256), Request::Metadata]);
    let mut object = found.unwrap();
    assert_eq!(object.kind(), Kind::Commit);
    assert_eq!(object.size(), payload.len());
    assert!(object.is_decompressed());
    assert_eq!(object.path(), None);
    let parsed = object.parsed().unwrap();
    assert_eq!(parsed.kind, Kind::Commit);
    assert_eq!(parsed.bytes, payload);
}

#[test]
fn large_tag_is_read_in_two_steps_and_completed_on_demand() {
    let mut payload = b"object 5a5a5a5a5a5a5a5a5a5a5a5a5a5a5a5a5a5a5a5a\ntype commit\ntag v1\n\n".to_vec();
    payload.extend_from_slice(&noise(3000));
    let file = loose("tag", &payload);
    assert!(file.len() > HEADER_READ_COMPRESSED_BYTES);
    let (found, asked) = run(Some(&file));
    assert_eq!(
        asked,
        vec![
            Request::Open,
            Request::Read(256),
            Request::Metadata,
            Request::ReadExact(file.len() - 256)
        ]
    );
    let mut object = found.unwrap();
    assert_eq!(object.kind(), Kind::Tag);
    assert_eq!(object.size(), payload.len());
    assert!(!object.is_decompressed());
    assert_eq!(object.path(), None);
    {
        let parsed = object.parsed().unwrap();
        assert_eq!(parsed.kind, Kind::Tag);
        assert_eq!(parsed.bytes, &payload[..]);
    }
    assert!(object.is_decompressed());
}

#[test]
fn missing_file_fails_at_open_with_the_path() {
    let (found, asked) = run(None);
    assert_eq!(asked, vec![Request::Open]);
    assert_eq!(found.unwrap_err(), Error::Io(ErrorKind::NotFound, "open", place()));
    assert_eq!(place().directory, "5a");
    assert_eq!(place().file, "5a".repeat(19));
}

#[test]
fn failures_name_what_was_asked_for() {
    let file = loose("tree", &noise(1000));
    let lookup = Db::at(String::from("objects")).find(&ID);
    let lookup = match lookup.advance(Event::Opened) {
        Progress::Continue(next) => next,
        other => panic!("{:?}", other),
    };
    assert_eq!(lookup.request(), Request::Read(HEADER_READ_COMPRESSED_BYTES));
    match lookup.advance(Event::Failed(ErrorKind::PermissionDenied)) {
        Progress::Failed(e) => assert_eq!(e, Error::Io(ErrorKind::PermissionDenied, READ, place())),
        other => panic!("{:?}", other),
    }
    let lookup = sizing(&file);
    assert_eq!(lookup.request(), Request::Metadata);
    match lookup.advance(Event::Failed(ErrorKind::Other)) {
        Progress::Failed(e) => assert_eq!(e, Error::Io(ErrorKind::Other, READ_METADATA, place())),
        other => panic!("{:?}", other),
    }
    let lookup = match sizing(&file).advance(Event::Size(file.len())) {
        Progress::Continue(next) => next,
        other => panic!("{:?}", other),
    };
    assert_eq!(lookup.request(), Request::ReadExact(file.len() - 256));
    match lookup.advance(Event::Failed(ErrorKind::UnexpectedEof)) {
        Progress::Failed(e) => assert_eq!(e, Error::Io(ErrorKind::UnexpectedEof, "read", place())),
        other => panic!("{:?}", other),
    }
    let lookup = Db::at(String::from("objects")).find(&ID);
    match lookup.advance(Event::Failed(ErrorKind::PermissionDenied)) {
        Progress::Failed(e) => assert_eq!(e, Error::Io(ErrorKind::PermissionDenied, OPEN, place())),
        other => panic!("{:?}", other),
    }
}

#[test]
fn blob_is_found_by_the_probe_alone() {
    let payload = noise(50_000);
    let file = loose("blob", &payload);
    let (found, asked) = run(Some(&file));
    assert_eq!(asked, vec![Request::Open, Request::Read(256)]);
    let object = found.unwrap();
    assert_eq!(object.kind(), Kind::Blob);
    assert_eq!(object.size(), 50_000);
    assert!(!object.is_decompressed());
    assert_eq!(object.path(), Some(&place()));
}

#[test]
fn small_blob_keeps_its_path_too() {
    let file = loose("blob", b"abc");
    let (found, asked) = run(Some(&file));
    assert_eq!(asked, vec![Request::Open, Request::Read(256)]);
    let object = found.unwrap();
    assert_eq!(object.kind(), Kind::Blob);
    assert_eq!(object.size(), 3);
    assert!(object.is_decompressed());
    assert_eq!(object.path(), Some(&place()));
}

#[test]
fn header_with_bad_size_fails_the_lookup() {
    let file = compress_to_vec_zlib(b"blob 12a\0payload", 6);
    let (found, _) = run(Some(&file));
    assert_eq!(
        found.unwrap_err(),
        Error::ParseIntegerError(INVALID_SIZE, b"12a".to_vec(), IntegerErrorKind::InvalidDigit)
    );
}

#[test]
fn header_faults_pass_through_the_lookup() {
    let (found, _) = run(Some(&compress_to_vec_zlib(b"no header here", 6)));
    assert_eq!(found.unwrap_err(), Error::InvalidHeader(MISSING_NUL));
    let (found, _) = run(Some(&compress_to_vec_zlib(b"wood 3\0abc", 6)));
    assert_eq!(found.unwrap_err(), Error::ObjectHeader(b"wood".to_vec()));
}

#[test]
fn file_that_is_no_stream_fails_with_its_path() {
    let (found, asked) = run(Some(&[0xffu8; 40]));
    assert_eq!(asked, vec![Request::Open, Request::Read(256)]);
    assert_eq!(found.unwrap_err(), Error::DecompressFile(InflateError::Data, place()));
}

#[test]
fn empty_file_has_no_header() {
    let (found, _) = run(Some(&[]));
    assert_eq!(found.unwrap_err(), Error::InvalidHeader(MISSING_NUL));
}

#[test]
fn probed_reads_the_header_from_what_was_inflated() {
    match Lookup::probed(place(), b"compressed", b"blob 3\0abc", true) {
        Progress::Found(object) => {
            assert_eq!(object.kind(), Kind::Blob);
            assert_eq!(object.size(), 3);
            assert!(object.is_decompressed());
            assert_eq!(object.path(), Some(&place()));
        }
        other => panic!("{:?}", other),
    }
    match Lookup::probed(place(), b"compressed", b"blob 3\0abc", false) {
        Progress::Found(object) => assert!(!object.is_decompressed()),
        other => panic!("{:?}", other),
    }
    match Lookup::probed(place(), b"compressed", b"blob 4\0abc", true) {
        Progress::Found(object) => assert!(!object.is_decompressed()),
        other => panic!("{:?}", other),
    }
    match Lookup::probed(place(), b"compressed", b"tree 3\0abc", true) {
        Progress::Continue(lookup) => {
            assert_eq!(lookup.request(), Request::Metadata);
            assert_eq!(lookup.path(), &place());
        }
        other => panic!("{:?}", other),
    }
    match Lookup::probed(place(), b"compressed", b"tree 3", true) {
        Progress::Failed(e) => assert_eq!(e, Error::InvalidHeader(MISSING_NUL)),
        other => panic!("{:?}", other),
    }
}

#[test]
fn size_not_above_what_was_read_ends_the_lookup() {
    let file = loose("tree", b"entries");
    match sizing(&file).advance(Event::Size(file.len())) {
        Progress::Found(object) => assert!(object.is_decompressed()),
        other => panic!("{:?}", other),
    }
    match sizing(&file).advance(Event::Size(0)) {
        Progress::Found(object) => assert_eq!(object.kind(), Kind::Tree),
        other => panic!("{:?}", other),
    }
    match sizing(&file).advance(Event::Size(file.len() + 5)) {
        Progress::Continue(lookup) => assert_eq!(lookup.request(), Request::ReadExact(5)),
        other => panic!("{:?}", other),
    }
}

#[test]
fn events_that_answer_nothing_leave_the_lookup_where_it_is() {
    let lookup = Db::at(String::from("objects")).find(&ID);
    let lookup = match lookup.advance(Event::Size(3)) {
        Progress::Continue(next) => next,
        other => panic!("{:?}", other),
    };
    assert_eq!(lookup.request(), Request::Open);
    let lookup = match lookup.advance(Event::Read(vec![1, 2, 3])) {
        Progress::Continue(next) => next,
        other => panic!("{:?}", other),
    };
    assert_eq!(lookup.request(), Request::Open);
    let lookup = match lookup.advance(Event::Opened) {
        Progress::Continue(next) => next,
        other => panic!("{:?}", other),
    };
    let lookup = match lookup.advance(Event::Read(vec![0; HEADER_READ_COMPRESSED_BYTES + 1])) {
        Progress::Continue(next) => next,
        other => panic!("{:?}", other),
    };
    assert_eq!(lookup.request(), Request::Read(256));
    let file = loose("tree", &noise(1000));
    let lookup = match sizing(&file).advance(Event::Opened) {
        Progress::Continue(next) => next,
        other => panic!("{:?}", other),
    };
    assert_eq!(lookup.request(), Request::Metadata);
    let lookup = match lookup.advance(Event::Size(file.len())) {
        Progress::Continue(next) => next,
        other => panic!("{:?}", other),
    };
    let rest = file.len() - 256;
    let lookup = match lookup.advance(Event::Read(vec![0; rest - 1])) {
        Progress::Continue(next) => next,
        other => panic!("{:?}", other),
    };
    assert_eq!(lookup.request(), Request::ReadExact(rest));
    assert_eq!(HEADER_READ_UNCOMPRESSED_BYTES, 512);
}
