//! The vocabulary of object kinds.

use vstd::prelude::*;

verus! {

/// The four kinds of object a store can hold.
#[derive(Clone, Copy, Debug, PartialEq, Eq, Structural)]
pub enum Kind {
    Tag,
    Commit,
    Tree,
    Blob,
}

/// The name of `kind` as it is written in an object header: `tag`, `commit`,
/// `tree` or `blob` in ASCII.
pub open spec fn kind_name(kind: Kind) -> Seq<u8> {
    match kind {
        Kind::Tag => seq![0x74u8, 0x61, 0x67],
        Kind::Commit => seq![0x63u8, 0x6f, 0x6d, 0x6d, 0x69, 0x74],
        Kind::Tree => seq![0x74u8, 0x72, 0x65, 0x65],
        Kind::Blob => seq![0x62u8, 0x6c, 0x6f, 0x62],
    }
}

/// The kind that `name` stands for, if it is one of the four names.
pub open spec fn kind_of_name(name: Seq<u8>) -> Option<Kind> {
    if name == kind_name(Kind::Tag) {
        Some(Kind::Tag)
    } else if name == kind_name(Kind::Commit) {
        Some(Kind::Commit)
    } else if name == kind_name(Kind::Tree) {
        Some(Kind::Tree)
    } else if name == kind_name(Kind::Blob) {
        Some(Kind::Blob)
    } else {
        None
    }
}

/// Whether two runs of bytes are the same.
fn bytes_equal(a: &[u8], b: &[u8]) -> (r: bool)
    ensures
        r == (a@ == b@),
{
    if a.len() != b.len() {
        return false;
    }
    let mut i: usize = 0;
    while i < a.len()
        invariant
            a.len() == b.len(),
            i <= a.len(),
            forall|j: int| 0 <= j < i ==> a@[j] == b@[j],
        decreases a.len() - i,
    {
        if a[i] != b[i] {
            return false;
        }
        i += 1;
    }
    assert(a@ =~= b@);
    true
}

impl Kind {
    /// Decodes a kind from its header name; `None` for any other bytes.
    pub fn from_bytes(name: &[u8]) -> (r: Option<Kind>)
        ensures
            r == kind_of_name(name@),
    {
        let tag: [u8; 3] = [0x74, 0x61, 0x67];
        let commit: [u8; 6] = [0x63, 0x6f, 0x6d, 0x6d, 0x69, 0x74];
        let tree: [u8; 4] = [0x74, 0x72, 0x65, 0x65];
        let blob: [u8; 4] = [0x62, 0x6c, 0x6f, 0x62];
        assert(tag@ =~= kind_name(Kind::Tag));
        assert(commit@ =~= kind_name(Kind::Commit));
        assert(tree@ =~= kind_name(Kind::Tree));
        assert(blob@ =~= kind_name(Kind::Blob));
        if bytes_equal(name, tag.as_slice()) {
            Some(Kind::Tag)
        } else if bytes_equal(name, commit.as_slice()) {
            Some(Kind::Commit)
        } else if bytes_equal(name, tree.as_slice()) {
            Some(Kind::Tree)
        } else if bytes_equal(name, blob.as_slice()) {
            Some(Kind::Blob)
        } else {
            None
        }
    }
}

} // verus!
