//! Paths of a Unix host: any bytes, with `/` between the names.

use crate::text;
use vstd::prelude::*;
use vstd::utf8;

verus! {

/// A path as the host has it. It need not be text.
#[derive(Debug, PartialEq, Eq)]
pub struct HostPath {
    pub bytes: Vec<u8>,
}

impl View for HostPath {
    type V = Seq<u8>;

    open spec fn view(&self) -> Seq<u8> {
        self.bytes@
    }
}

/// What a host path, if there is one, holds.
pub open spec fn path_view(p: Option<HostPath>) -> Option<Seq<u8>> {
    match p {
        Some(path) => Some(path@),
        None => None,
    }
}

/// The text that `String::from_utf8_lossy` makes of bytes: sequences that are
/// no UTF-8 give way to U+FFFD.
pub uninterp spec fn lossy(bytes: Seq<u8>) -> Seq<char>;

/// `String::from_utf8_lossy`, with the text made owned. Bytes that are UTF-8
/// come out as the text that they encode.
#[verifier::external_body]
fn from_utf8_lossy(bytes: &[u8]) -> (r: String)
    ensures
        r@ == lossy(bytes@),
        utf8::valid_utf8(bytes@) ==> r@ == utf8::decode_utf8(bytes@),
{
    String::from_utf8_lossy(bytes).into_owned()
}

/// `name` below `dir`. An absolute name stands for itself.
pub open spec fn joined(dir: Seq<u8>, name: Seq<u8>) -> Seq<u8> {
    if name.len() > 0 && name[0] == 0x2f {
        name
    } else if dir.len() == 0 || dir.last() == 0x2f {
        dir + name
    } else {
        dir.push(0x2f) + name
    }
}

/// Whether the path starts at the root directory.
pub open spec fn rooted(path: Seq<u8>) -> bool {
    path.len() > 0 && path[0] == 0x2f
}

/// Whether a piece between two separators is a name of its own: an empty piece
/// is not, and `.` is only at the front of a relative path.
pub open spec fn counts(piece: Seq<u8>, at: int) -> bool {
    piece.len() > 0 && (at == 0 || piece != seq![0x2eu8])
}

/// The names among the pieces.
pub open spec fn names(pieces: Seq<Seq<u8>>) -> Seq<Seq<u8>>
    decreases pieces.len(),
{
    if pieces.len() == 0 {
        Seq::empty()
    } else {
        let before = names(pieces.drop_last());
        if counts(pieces.last(), pieces.len() - 1) {
            before.push(pieces.last())
        } else {
            before
        }
    }
}

/// Whether two paths have the same components: repeated separators, trailing
/// ones, and `.` behind the first name make no difference.
pub open spec fn same_path(a: Seq<u8>, b: Seq<u8>) -> bool {
    rooted(a) == rooted(b) && names(text::split(a, 0x2fu8)) == names(text::split(b, 0x2fu8))
}

/// The bytes that a list of byte strings holds.
pub open spec fn byte_strings(list: Seq<Vec<u8>>) -> Seq<Seq<u8>> {
    list.map_values(|v: Vec<u8>| v@)
}

pub(crate) fn copy_bytes(bytes: &Vec<u8>) -> (r: Vec<u8>)
    ensures
        r@ == bytes@,
{
    let mut r: Vec<u8> = Vec::new();
    let mut i: usize = 0;
    while i < bytes.len()
        invariant
            i <= bytes.len(),
            r@ == bytes@.take(i as int),
        decreases bytes.len() - i,
    {
        r.push(bytes[i]);
        assert(r@ =~= bytes@.take(i + 1));
        i += 1;
    }
    assert(r@ =~= bytes@);
    r
}

pub(crate) fn append_bytes(to: &mut Vec<u8>, bytes: &Vec<u8>)
    ensures
        final(to)@ == old(to)@ + bytes@,
{
    let mut rest = copy_bytes(bytes);
    to.append(&mut rest);
}

/// The pieces of `bytes` between the occurrences of `sep`.
pub fn split_bytes(bytes: &Vec<u8>, sep: u8) -> (r: Vec<Vec<u8>>)
    ensures
        byte_strings(r@) == text::split(bytes@, sep),
{
    let mut done: Vec<Vec<u8>> = Vec::new();
    let mut current: Vec<u8> = Vec::new();
    let mut i: usize = 0;
    assert(text::split(bytes@.take(0), sep) =~= byte_strings(done@).push(current@));
    while i < bytes.len()
        invariant
            i <= bytes.len(),
            text::split(bytes@.take(i as int), sep) == byte_strings(done@).push(current@),
        decreases bytes.len() - i,
    {
        let b: u8 = bytes[i];
        let ghost known = byte_strings(done@).push(current@);
        assert(bytes@.take(i + 1).drop_last() =~= bytes@.take(i as int));
        assert(known.drop_last() =~= byte_strings(done@));
        if b == sep {
            done.push(current);
            current = Vec::new();
            assert(byte_strings(done@) =~= known);
        } else {
            current.push(b);
        }
        i += 1;
    }
    assert(bytes@.take(i as int) =~= bytes@);
    let ghost known = byte_strings(done@).push(current@);
    done.push(current);
    assert(byte_strings(done@) =~= known);
    done
}

fn same_bytes(a: &Vec<u8>, b: &Vec<u8>) -> (r: bool)
    ensures
        r == (a@ == b@),
{
    if a.len() != b.len() {
        return false;
    }
    let mut i: usize = 0;
    while i < a.len()
        invariant
            i <= a.len() == b.len(),
            forall|j: int| 0 <= j < i ==> a@[j] == b@[j],
        decreases a.len() - i,
    {
        if a[i] != b[i] {
            return false;
        }
        i += 1;
    }
    assert(a@ =~= b@);
    true
}

/// The names among the pieces of a path.
fn names_of(path: &Vec<u8>) -> (r: Vec<Vec<u8>>)
    ensures
        byte_strings(r@) == names(text::split(path@, 0x2fu8)),
{
    let pieces = split_bytes(path, 0x2f);
    let ghost all = byte_strings(pieces@);
    let mut r: Vec<Vec<u8>> = Vec::new();
    let mut i: usize = 0;
    assert(byte_strings(r@) =~= names(all.take(0)));
    while i < pieces.len()
        invariant
            i <= pieces.len(),
            all == byte_strings(pieces@),
            byte_strings(r@) == names(all.take(i as int)),
        decreases pieces.len() - i,
    {
        let piece = &pieces[i];
        assert(all.take(i + 1).drop_last() =~= all.take(i as int));
        assert(all.take(i + 1).last() == piece@);
        assert(piece@ == seq![0x2eu8] <==> piece@.len() == 1 && piece@[0] == 0x2e) by {
            if piece@.len() == 1 && piece@[0] == 0x2e {
                assert(piece@ =~= seq![0x2eu8]);
            }
        }
        if piece.len() > 0 && (i == 0 || !(piece.len() == 1 && piece[0] == 0x2e)) {
            let ghost known = byte_strings(r@).push(piece@);
            r.push(copy_bytes(piece));
            assert(byte_strings(r@) =~= known);
        }
        i += 1;
    }
    assert(all.take(i as int) =~= all);
    r
}

impl Clone for HostPath {
    fn clone(&self) -> (r: Self)
        ensures
            r@ == self@,
    {
        HostPath { bytes: copy_bytes(&self.bytes) }
    }
}

impl HostPath {
    /// The path that the text spells.
    pub fn new(path: &str) -> (r: Self)
        ensures
            r@ == utf8::encode_utf8(path@),
    {
        HostPath { bytes: path.as_bytes_vec() }
    }

    /// The path as text, for the command line of runc.
    pub fn to_text(&self) -> (r: String)
        ensures
            r@ == lossy(self@),
            utf8::valid_utf8(self@) ==> r@ == utf8::decode_utf8(self@),
    {
        from_utf8_lossy(self.bytes.as_slice())
    }

    /// `name` below this directory.
    pub fn join(&self, name: &str) -> (r: Self)
        ensures
            r@ == joined(self@, utf8::encode_utf8(name@)),
    {
        let name: Vec<u8> = name.as_bytes_vec();
        if name.len() > 0 && name[0] == 0x2f {
            return HostPath { bytes: name };
        }
        let mut bytes = copy_bytes(&self.bytes);
        if bytes.len() > 0 && bytes[bytes.len() - 1] != 0x2f {
            bytes.push(0x2f);
        }
        append_bytes(&mut bytes, &name);
        HostPath { bytes }
    }

    /// Whether both paths have the same components.
    pub fn same(&self, other: &HostPath) -> (r: bool)
        ensures
            r == same_path(self@, other@),
    {
        let root: bool = self.bytes.len() > 0 && self.bytes[0] == 0x2f;
        let other_root: bool = other.bytes.len() > 0 && other.bytes[0] == 0x2f;
        if root != other_root {
            return false;
        }
        let left = names_of(&self.bytes);
        let right = names_of(&other.bytes);
        if left.len() != right.len() {
            assert(byte_strings(left@).len() != byte_strings(right@).len());
            return false;
        }
        let mut i: usize = 0;
        while i < left.len()
            invariant
                i <= left.len() == right.len(),
                byte_strings(left@) == names(text::split(self@, 0x2fu8)),
                byte_strings(right@) == names(text::split(other@, 0x2fu8)),
                forall|j: int| 0 <= j < i ==> left@[j]@ == right@[j]@,
            decreases left.len() - i,
        {
            if !same_bytes(&left[i], &right[i]) {
                assert(byte_strings(left@)[i as int] != byte_strings(right@)[i as int]);
                return false;
            }
            i += 1;
        }
        assert(byte_strings(left@) =~= byte_strings(right@));
        true
    }
}

} // verus!
