//! Finding the runc binary on the host's search path.

use crate::path;
use crate::path::HostPath;
use crate::text;
use vstd::prelude::*;
use vstd::utf8;

verus! {

/// The places at which a search path, a list of directories with `:` between
/// them, has the runc binary.
pub open spec fn places(search_path: Option<Seq<u8>>) -> Seq<Seq<u8>> {
    match search_path {
        Some(dirs) => text::split(dirs, 0x3au8).map_values(
            |dir: Seq<u8>| path::joined(dir, utf8::encode_utf8("runc"@)),
        ),
        None => Seq::empty(),
    }
}

/// The first of the places at which there is a file.
pub open spec fn first_file(places: Seq<Seq<u8>>, is_file: spec_fn(Seq<u8>) -> bool) -> Option<
    Seq<u8>,
>
    decreases places.len(),
{
    if places.len() == 0 {
        None
    } else if is_file(places[0]) {
        Some(places[0])
    } else {
        first_file(places.drop_first(), is_file)
    }
}

/// What a list of paths holds.
pub open spec fn path_views(list: Seq<HostPath>) -> Seq<Seq<u8>> {
    list.map_values(|p: HostPath| p@)
}

/// A search for the runc binary: the places that the host has not tried yet.
#[derive(Debug)]
pub struct RuncLookup {
    places: Vec<HostPath>,
    tried: usize,
}

impl View for RuncLookup {
    type V = Seq<Seq<u8>>;

    closed spec fn view(&self) -> Seq<Seq<u8>> {
        path_views(self.places@).skip(self.tried as int)
    }
}

impl RuncLookup {
    #[verifier::type_invariant]
    spec fn wf(self) -> bool {
        self.tried <= self.places@.len()
    }

    /// Starts a search of the directories of `search_path`.
    pub fn new(search_path: Option<&HostPath>) -> (r: Self)
        ensures
            r@ == places(
                match search_path {
                    Some(p) => Some(p@),
                    None => None,
                },
            ),
    {
        let mut places: Vec<HostPath> = Vec::new();
        let search_path = match search_path {
            Some(search_path) => search_path,
            None => {
                assert(path_views(places@).skip(0) =~= Seq::empty());
                return RuncLookup { places, tried: 0 };
            },
        };
        let dirs = path::split_bytes(&search_path.bytes, 0x3a);
        let ghost pieces = text::split(search_path@, 0x3au8);
        let ghost all = self::places(Some(search_path@));
        let mut i: usize = 0;
        assert(path_views(places@) =~= all.take(0));
        while i < dirs.len()
            invariant
                i <= dirs.len(),
                path::byte_strings(dirs@) == pieces,
                all == pieces.map_values(
                    |dir: Seq<u8>| path::joined(dir, utf8::encode_utf8("runc"@)),
                ),
                path_views(places@) == all.take(i as int),
            decreases dirs.len() - i,
        {
            let mut bytes: Vec<u8> = Vec::new();
            path::append_bytes(&mut bytes, &dirs[i]);
            let dir = HostPath { bytes };
            assert(dir@ =~= pieces[i as int]);
            let ghost before = path_views(places@);
            places.push(dir.join("runc"));
            assert(path_views(places@) =~= before.push(all[i as int]));
            assert(all.take(i + 1) =~= all.take(i as int).push(all[i as int]));
            i += 1;
        }
        assert(path_views(places@).skip(0) =~= all);
        RuncLookup { places, tried: 0 }
    }

    /// The place at which the host is to look for a file.
    pub fn candidate(&self) -> (r: Option<HostPath>)
        ensures
            match r {
                Some(p) => self@.len() > 0 && p@ == self@[0],
                None => self@.len() == 0,
            },
    {
        proof {
            use_type_invariant(self);
        }
        if self.tried < self.places.len() {
            Some(self.places[self.tried].clone())
        } else {
            None
        }
    }

    /// Goes on to the next place, when there was no file at this one.
    pub fn reject(&mut self)
        ensures
            final(self)@ == if old(self)@.len() > 0 {
                old(self)@.drop_first()
            } else {
                old(self)@
            },
    {
        proof {
            use_type_invariant(&*self);
        }
        if self.tried < self.places.len() {
            let ghost before = self@;
            self.tried = self.tried + 1;
            assert(self@ =~= before.drop_first());
        }
    }
}

} // verus!
