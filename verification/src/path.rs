//! Where the file of an object lies under the root of a store.

use vstd::prelude::*;
use vstd::string::*;

verus! {

/// The place of an object's file: below `root`, the directory `directory`, and in it
/// the file `file`.
#[derive(Clone, Debug, PartialEq, Eq)]
pub struct ObjectPath {
    pub root: String,
    pub directory: String,
    pub file: String,
}

/// An [`ObjectPath`] as three sequences of characters.
pub struct ObjectPathView {
    pub root: Seq<char>,
    pub directory: Seq<char>,
    pub file: Seq<char>,
}

impl View for ObjectPath {
    type V = ObjectPathView;

    open spec fn view(&self) -> ObjectPathView {
        ObjectPathView { root: self.root@, directory: self.directory@, file: self.file@ }
    }
}

/// A place that may be there, as sequences of characters.
pub open spec fn place_of(path: Option<ObjectPath>) -> Option<ObjectPathView> {
    match path {
        Some(path) => Some(path@),
        None => None,
    }
}

/// The lower-case hexadecimal digit for a value from 0 to 15.
pub open spec fn hex_digit(nibble: int) -> char {
    if nibble < 10 {
        (0x30 + nibble) as char
    } else {
        (0x57 + nibble) as char
    }
}

/// The lower-case hexadecimal writing of `bytes`: two digits for each byte, the
/// high half first.
pub open spec fn hex_lower(bytes: Seq<u8>) -> Seq<char> {
    Seq::new(
        2 * bytes.len(),
        |i: int|
            if i % 2 == 0 {
                hex_digit(bytes[i / 2] as int / 16)
            } else {
                hex_digit(bytes[i / 2] as int % 16)
            },
    )
}

/// The place that the object `id` has under `root`.
pub open spec fn object_path(id: Seq<u8>, root: Seq<char>) -> ObjectPathView {
    ObjectPathView { root, directory: hex_lower(id).take(2), file: hex_lower(id).skip(2) }
}

/// Writes an id in hexadecimal with `hex::encode`, which gives for each byte two
/// characters out of `0123456789abcdef`, first the one for the high four bits.
#[verifier::external_body]
fn hex_encode(id: &[u8; 20]) -> (text: String)
    ensures
        text@ == hex_lower(id@),
{
    hex::encode(id)
}

/// The hexadecimal writing holds ASCII characters only.
pub proof fn lemma_hex_is_ascii(bytes: Seq<u8>)
    ensures
        vstd::utf8::is_ascii_chars(hex_lower(bytes)),
        hex_lower(bytes).len() == 2 * bytes.len(),
{
}

/// Maps an object id to the place of its file under `root`: the first two
/// hexadecimal characters of the id name the directory, the other 38 the file.
pub fn sha1_path(id: &[u8; 20], root: String) -> (path: ObjectPath)
    ensures
        path@ == object_path(id@, root@),
        path.directory@.len() == 2,
        path.file@.len() == 38,
        path.directory@ + path.file@ == hex_lower(id@),
{
    let text = hex_encode(id);
    proof {
        lemma_hex_is_ascii(id@);
    }
    let directory = text.as_str().substring_ascii(0, 2).to_owned();
    let file = text.as_str().substring_ascii(2, 40).to_owned();
    assert(hex_lower(id@).subrange(2, 40) =~= hex_lower(id@).skip(2));
    assert(hex_lower(id@).subrange(0, 2) =~= hex_lower(id@).take(2));
    assert(hex_lower(id@).take(2) + hex_lower(id@).skip(2) =~= hex_lower(id@));
    ObjectPath { root, directory, file }
}

} // verus!
