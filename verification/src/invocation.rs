//! A run of the runc binary, up to the point where its command line is known.

use crate::args;
use crate::args::{Arg, ArgView};
use crate::error::{Error, IoError};
use crate::path;
use crate::path::HostPath;
use crate::text;
use crate::time;
use crate::time::{SpanView, TimeSpan};
use vstd::prelude::*;

verus! {

/// A run of the runc binary. The host is asked for the canonical form of each
/// path that needs one: first those of the command, then those of the client's
/// own options, which stand in front of it.
#[derive(Debug)]
pub struct Invocation {
    /// The runc binary
    pub program: HostPath,
    /// The options of the client
    pub globals: Vec<Arg>,
    /// The command with its options
    pub args: Vec<Arg>,
    /// Whether standard error belongs to the answer
    pub combined_output: bool,
    /// How long runc may take, where the client waits for it to end
    pub timeout: Option<TimeSpan>,
}

#[verifier::ext_equal]
pub struct InvocationView {
    pub program: Seq<u8>,
    pub globals: Seq<ArgView>,
    pub args: Seq<ArgView>,
    pub combined_output: bool,
    pub timeout: Option<SpanView>,
}

impl View for Invocation {
    type V = InvocationView;

    open spec fn view(&self) -> InvocationView {
        InvocationView {
            program: self.program@,
            globals: args::arg_views(self.globals@),
            args: args::arg_views(self.args@),
            combined_output: self.combined_output,
            timeout: time::span_view(self.timeout),
        }
    }
}

/// The first argument at or behind `from` that waits for the host, or the end.
pub open spec fn first_open(args: Seq<ArgView>, from: int) -> int
    decreases args.len() - from,
{
    if from >= args.len() {
        args.len() as int
    } else if args[from] is Canonical {
        from
    } else {
        first_open(args, from + 1)
    }
}

/// The path of the first argument that waits for the host.
pub open spec fn open_path(args: Seq<ArgView>) -> Option<Seq<u8>> {
    let i = first_open(args, 0);
    if i < args.len() {
        Some(args[i]->Canonical_0)
    } else {
        None
    }
}

/// `args` with `word` for the first argument that waits for the host.
pub open spec fn filled(args: Seq<ArgView>, word: Seq<char>) -> Seq<ArgView> {
    args.update(first_open(args, 0), ArgView::Text(word))
}

/// The word that an argument is.
pub open spec fn word(arg: ArgView) -> Seq<char> {
    match arg {
        ArgView::Text(text) => text,
        ArgView::Canonical(_) => Seq::empty(),
    }
}

/// The number of arguments at or behind `from` that wait for the host.
pub open spec fn open_count(args: Seq<ArgView>, from: int) -> nat
    decreases args.len() - from,
{
    if from >= args.len() {
        0
    } else {
        open_count(args, from + 1) + if args[from] is Canonical {
            1nat
        } else {
            0nat
        }
    }
}

/// An argument on a host that finds `canonical(p)` for the path `p`.
pub open spec fn settled(arg: ArgView, canonical: spec_fn(Seq<u8>) -> HostPath) -> ArgView {
    match arg {
        ArgView::Text(text) => ArgView::Text(text),
        ArgView::Canonical(bytes) => ArgView::Text(path::lossy(canonical(bytes)@)),
    }
}

impl InvocationView {
    /// The number of paths that the host is asked for.
    pub open spec fn open_total(self) -> nat {
        open_count(self.args, 0) + open_count(self.globals, 0)
    }

    /// The invocation on a host that finds `canonical(p)` for the path `p`.
    pub open spec fn on_host(self, canonical: spec_fn(Seq<u8>) -> HostPath) -> InvocationView {
        InvocationView {
            args: self.args.map_values(|a: ArgView| settled(a, canonical)),
            globals: self.globals.map_values(|a: ArgView| settled(a, canonical)),
            ..self
        }
    }

    /// The path whose canonical form is needed next.
    pub open spec fn pending(self) -> Option<Seq<u8>> {
        match open_path(self.args) {
            Some(bytes) => Some(bytes),
            None => open_path(self.globals),
        }
    }

    /// The invocation when the host has answered with the path `bytes`.
    pub open spec fn answered(self, bytes: Seq<u8>) -> InvocationView {
        if open_path(self.args) is Some {
            InvocationView { args: filled(self.args, path::lossy(bytes)), ..self }
        } else if open_path(self.globals) is Some {
            InvocationView { globals: filled(self.globals, path::lossy(bytes)), ..self }
        } else {
            self
        }
    }

    /// The command line behind the binary, where nothing is pending.
    pub open spec fn argv(self) -> Option<Seq<Seq<char>>> {
        if self.pending() is None {
            Some((self.globals + self.args).map_values(|a: ArgView| word(a)))
        } else {
            None
        }
    }
}

pub proof fn lemma_first_open(args: Seq<ArgView>, from: int)
    requires
        0 <= from <= args.len(),
    ensures
        from <= first_open(args, from) <= args.len(),
        forall|j: int| from <= j < first_open(args, from) ==> args[j] is Text,
        first_open(args, from) < args.len() ==> args[first_open(args, from)] is Canonical,
    decreases args.len() - from,
{
    if from < args.len() && args[from] is Text {
        lemma_first_open(args, from + 1);
    }
}

/// Where the first argument stands that waits for the host.
fn find_open(list: &Vec<Arg>) -> (r: usize)
    ensures
        r == first_open(args::arg_views(list@), 0),
        r <= list@.len(),
        r < list@.len() ==> list@[r as int] is Canonical,
{
    let ghost views = args::arg_views(list@);
    let mut i: usize = 0;
    while i < list.len()
        invariant
            i <= list.len(),
            views == args::arg_views(list@),
            first_open(views, 0) == first_open(views, i as int),
        decreases list.len() - i,
    {
        assert(views[i as int] == list@[i as int]@);
        match &list[i] {
            Arg::Canonical(_) => {
                return i;
            },
            Arg::Text(_) => {},
        }
        i += 1;
    }
    i
}

fn path_at(list: &Vec<Arg>, i: usize) -> (r: Option<HostPath>)
    requires
        i == first_open(args::arg_views(list@), 0),
        i <= list@.len(),
    ensures
        path::path_view(r) == open_path(args::arg_views(list@)),
{
    proof {
        lemma_first_open(args::arg_views(list@), 0);
    }
    if i < list.len() {
        assert(args::arg_views(list@)[i as int] == list@[i as int]@);
        match &list[i] {
            Arg::Canonical(path) => Some(path.clone()),
            Arg::Text(_) => None,
        }
    } else {
        None
    }
}

/// Puts the words of `list` behind `words`. All of them are known.
fn push_words(words: &mut Vec<String>, list: &Vec<Arg>)
    requires
        open_path(args::arg_views(list@)) is None,
    ensures
        text::texts(final(words)@) == text::texts(old(words)@) + args::arg_views(list@).map_values(
            |a: ArgView| word(a),
        ),
{
    let ghost views = args::arg_views(list@);
    let ghost all = views.map_values(|a: ArgView| word(a));
    proof {
        lemma_first_open(views, 0);
    }
    let mut i: usize = 0;
    assert(text::texts(words@) =~= text::texts(old(words)@) + all.take(0));
    while i < list.len()
        invariant
            i <= list.len(),
            views == args::arg_views(list@),
            all == views.map_values(|a: ArgView| word(a)),
            first_open(views, 0) == views.len(),
            text::texts(words@) == text::texts(old(words)@) + all.take(i as int),
        decreases list.len() - i,
    {
        proof {
            lemma_first_open(views, 0);
            assert(views[i as int] == list@[i as int]@);
        }
        let ghost before = text::texts(words@);
        match &list[i] {
            Arg::Text(text) => {
                words.push(text.clone());
            },
            Arg::Canonical(_) => {
                assert(false);
            },
        }
        assert(text::texts(words@) =~= before.push(all[i as int]));
        assert(all.take(i + 1) =~= all.take(i as int).push(all[i as int]));
        i += 1;
    }
    assert(all.take(i as int) =~= all);
}

impl Invocation {
    /// The path whose canonical form the host is to find next.
    pub fn pending(&self) -> (r: Option<HostPath>)
        ensures
            path::path_view(r) == self@.pending(),
    {
        match path_at(&self.args, find_open(&self.args)) {
            Some(path) => Some(path),
            None => path_at(&self.globals, find_open(&self.globals)),
        }
    }

    /// Whether the path that is pending belongs to the command, not to the
    /// client's own options.
    pub fn pending_in_command(&self) -> (r: bool)
        ensures
            r == (open_path(self@.args) is Some),
    {
        find_open(&self.args) < self.args.len()
    }

    /// Takes the host's answer to the path that is pending: its canonical form,
    /// or why there is none.
    pub fn answer(&mut self, canonical: Result<HostPath, IoError>) -> (r: Result<(), Error>)
        ensures
            match canonical {
                Ok(path) => r is Ok && final(self)@ == old(self)@.answered(path@),
                Err(e) => r matches Err(f) && f == Error::IoError(e) && final(self)@ == old(self)@,
            },
    {
        let path = match canonical {
            Ok(path) => path,
            Err(e) => return Err(Error::IoError(e)),
        };
        let ghost before = self@;
        let i: usize = find_open(&self.args);
        let word = Arg::Text(path.to_text());
        if i < self.args.len() {
            self.args.set(i, word);
            assert(args::arg_views(self.args@) =~= filled(before.args, path::lossy(path@)));
        } else {
            let k: usize = find_open(&self.globals);
            if k < self.globals.len() {
                self.globals.set(k, word);
                assert(args::arg_views(self.globals@) =~= filled(
                    before.globals,
                    path::lossy(path@),
                ));
            }
        }
        Ok(())
    }

    /// The command line behind the binary, once no path is pending.
    pub fn argv(&self) -> (r: Option<Vec<String>>)
        ensures
            match r {
                Some(words) => self@.argv() == Some(text::texts(words@)),
                None => self@.argv() is None,
            },
    {
        if find_open(&self.args) < self.args.len() || find_open(&self.globals)
            < self.globals.len() {
            return None;
        }
        let mut words: Vec<String> = Vec::new();
        push_words(&mut words, &self.globals);
        push_words(&mut words, &self.args);
        assert(text::texts(words@) =~= (self@.globals + self@.args).map_values(
            |a: ArgView| word(a),
        ));
        Some(words)
    }
}

} // verus!
