//! What holds of paths and of the places of the binary.

use crate::laws;
use crate::lookup;
use crate::path;
use crate::path::HostPath;
use crate::text;
use vstd::prelude::*;
use vstd::utf8;

verus! {

/// Whether the bytes are a single name, other than `.`.
pub open spec fn is_name(name: Seq<u8>) -> bool {
    name.len() > 0 && !name.contains(0x2f) && name != seq![0x2eu8]
}

/// A relative name joined to a directory is the directory, a separator where one
/// is needed, and the name. An absolute one is itself.
pub proof fn law_joined(dir: Seq<u8>, name: Seq<u8>)
    ensures
        name.len() > 0 && name[0] == 0x2f ==> path::joined(dir, name) == name,
        (name.len() == 0 || name[0] != 0x2f) && (dir.len() == 0 || dir.last() == 0x2f)
            ==> path::joined(dir, name) == dir + name,
        (name.len() == 0 || name[0] != 0x2f) && dir.len() > 0 && dir.last() != 0x2f
            ==> path::joined(dir, name) == dir + seq![0x2fu8] + name,
{
    assert(dir.push(0x2f) + name =~= dir + seq![0x2fu8] + name);
}

/// Paths to names are the same just where the directories are the same and the
/// names are equal.
pub proof fn law_same_path_by_name(d: Seq<u8>, n: Seq<u8>, e: Seq<u8>, m: Seq<u8>)
    requires
        is_name(n),
        is_name(m),
    ensures
        path::same_path(path::joined(d, n), path::joined(e, m)) <==> path::same_path(d, e) && n
            == m,
{
    laws::law_joined_is_below(d, n);
    laws::law_joined_is_below(e, m);
    assert(n.contains(n[0]));
    assert(m.contains(m[0]));
    if d.len() == 0 {
        assert(path::joined(d, n) =~= n);
    }
    if e.len() == 0 {
        assert(path::joined(e, m) =~= m);
    }
    let x = path::names(text::split(d, 0x2fu8));
    let y = path::names(text::split(e, 0x2fu8));
    if x.push(n) == y.push(m) {
        assert(x.push(n).drop_last() =~= x);
        assert(y.push(m).drop_last() =~= y);
        assert(x.push(n).last() == n);
        assert(y.push(m).last() == m);
    }
}

/// Two paths without separators are the same just where they are equal, and a
/// path that starts at the root directory is not the same as one that does not.
pub proof fn law_same_path_of_one_piece(a: Seq<u8>, b: Seq<u8>)
    ensures
        !a.contains(0x2f) && !b.contains(0x2f) ==> (path::same_path(a, b) <==> a == b),
        (a.len() > 0 && a[0] == 0x2f) && !(b.len() > 0 && b[0] == 0x2f) ==> !path::same_path(a, b),
{
    if !a.contains(0x2f) && !b.contains(0x2f) {
        laws::law_split_without_separator(a, 0x2fu8);
        laws::law_split_without_separator(b, 0x2fu8);
        lemma_names_of_one(a);
        lemma_names_of_one(b);
        if a.len() > 0 {
            assert(a.contains(a[0]));
            assert(seq![a][0] == a);
        }
        if b.len() > 0 {
            assert(b.contains(b[0]));
            assert(seq![b][0] == b);
        }
        if a.len() == 0 && b.len() == 0 {
            assert(a =~= b);
        }
    }
}

proof fn lemma_names_of_one(piece: Seq<u8>)
    ensures
        path::names(seq![piece]) == if piece.len() > 0 {
            seq![piece]
        } else {
            Seq::empty()
        },
{
    assert(seq![piece].drop_last() =~= Seq::empty());
    assert(path::names(Seq::<Seq<u8>>::empty()) =~= Seq::empty());
    assert(Seq::<Seq<u8>>::empty().push(piece) =~= seq![piece]);
}

proof fn lemma_names_skip_dot(x: Seq<Seq<u8>>, y: Seq<Seq<u8>>)
    requires
        x.len() > 0,
    ensures
        path::names(x + y) == path::names(x.push(seq![0x2eu8]) + y),
    decreases y.len(),
{
    let short = x + y;
    let long = x.push(seq![0x2eu8]) + y;
    if y.len() == 0 {
        assert(short =~= x);
        assert(long =~= x.push(seq![0x2eu8]));
        assert(long.drop_last() =~= x);
    } else {
        lemma_names_skip_dot(x, y.drop_last());
        assert(short.drop_last() =~= x + y.drop_last());
        assert(long.drop_last() =~= x.push(seq![0x2eu8]) + y.drop_last());
    }
}

/// `/./` is the same as `/`.
pub proof fn law_dot_between(a: Seq<u8>, b: Seq<u8>)
    ensures
        path::same_path(a.push(0x2f) + b, a.push(0x2f).push(0x2e).push(0x2f) + b),
{
    let dotted = a.push(0x2f).push(0x2e);
    let once = a.push(0x2f) + b;
    let more = dotted.push(0x2f) + b;
    laws::law_split_at_separator(a, 0x2fu8, b);
    laws::law_split_at_separator(dotted, 0x2fu8, b);
    laws::law_split_at_separator(a, 0x2fu8, seq![0x2eu8]);
    assert(a.push(0x2f) + seq![0x2eu8] =~= dotted);
    assert(!seq![0x2eu8].contains(0x2fu8));
    laws::law_split_without_separator(seq![0x2eu8], 0x2fu8);
    let pieces = text::split(a, 0x2fu8);
    text::lemma_split_some(a, 0x2fu8);
    assert(pieces + seq![seq![0x2eu8]] =~= pieces.push(seq![0x2eu8]));
    lemma_names_skip_dot(pieces, text::split(b, 0x2fu8));
    if a.len() > 0 {
        assert(once[0] == a[0] && more[0] == a[0]);
    } else {
        assert(once[0] == 0x2f && more[0] == 0x2f);
    }
}

/// Without a search path there is no place to look. A directory alone gives the
/// file `runc` in it, and two lists of directories with a colon between them give
/// the places of the one and then those of the other.
pub proof fn law_places(dir: Seq<u8>, a: Seq<u8>, b: Seq<u8>)
    ensures
        lookup::places(None) == Seq::<Seq<u8>>::empty(),
        !dir.contains(0x3a) ==> lookup::places(Some(dir)) == seq![
            if dir.len() == 0 || dir.last() == 0x2f {
                dir + utf8::encode_utf8("runc"@)
            } else {
                dir + seq![0x2fu8] + utf8::encode_utf8("runc"@)
            },
        ],
        lookup::places(Some(a.push(0x3a) + b)) == lookup::places(Some(a)) + lookup::places(Some(b)),
{
    let name = utf8::encode_utf8("runc"@);
    laws::law_split_at_separator(a, 0x3au8, b);
    assert(lookup::places(Some(a.push(0x3a) + b)) =~= lookup::places(Some(a)) + lookup::places(
        Some(b),
    ));
    if !dir.contains(0x3a) {
        laws::law_split_without_separator(dir, 0x3au8);
        lemma_runc_is_relative();
        law_joined(dir, name);
        assert(lookup::places(Some(dir)) =~= seq![path::joined(dir, name)]);
    }
}

proof fn lemma_runc_is_relative()
    ensures
        utf8::encode_utf8("runc"@).len() == 0 || utf8::encode_utf8("runc"@)[0] != 0x2f,
{
    reveal_strlit("runc");
    let name = utf8::encode_utf8("runc"@);
    assert(utf8::is_ascii_chars("runc"@));
    utf8::is_ascii_chars_encode_utf8("runc"@);
    assert(name[0] == "runc"@[0] as u8);
}

/// A path holds its bytes, one that is not there holds none, and a list of paths
/// or of byte strings holds those of each.
pub proof fn law_path_views(p: Option<HostPath>, list: Seq<HostPath>, strings: Seq<Vec<u8>>)
    ensures
        p is None <==> path::path_view(p) is None,
        p is Some ==> path::path_view(p)->0 == p->0.bytes@,
        lookup::path_views(list).len() == list.len(),
        forall|i: int| 0 <= i < list.len() ==> #[trigger] lookup::path_views(list)[i]
            == list[i].bytes@,
        path::byte_strings(strings).len() == strings.len(),
        forall|i: int| 0 <= i < strings.len() ==> #[trigger] path::byte_strings(strings)[i]
            == strings[i]@,
{
}

} // verus!
