//! What holds of the library as a whole.

pub mod endings;
pub mod lines;
pub mod outputs;
pub mod places;
pub mod tables;
pub mod wording;

use crate::args::{ArgView, CreateOpts};
use crate::client;
use crate::command;
use crate::command::{AnswerView, CommandEnd, Wanted};
use crate::console::{Control, PtyReply, PtyStage, PtyView};
use crate::error::ErrorView;
use crate::invocation;
use crate::invocation::InvocationView;
use crate::lookup;
use crate::path;
use crate::path::HostPath;
use crate::reply;
use crate::stream::{ReadEvent, Source, StepView, StreamView, Turn};
use crate::stream;
use crate::task;
use crate::task::{ActionView, HostReply, StageView, TaskView};
use crate::text;
use vstd::prelude::*;
use vstd::utf8;

verus! {

/// Splitting loses nothing: the pieces, strung together with the separator
/// between them, are the whole, and no piece holds the separator.
pub proof fn law_split_undone_by_join<T>(s: Seq<T>, sep: T)
    ensures
        text::join(text::split(s, sep), seq![sep]) == s,
        forall|i: int|
            0 <= i < text::split(s, sep).len() ==> !(#[trigger] text::split(s, sep)[i]).contains(
                sep,
            ),
    decreases s.len(),
{
    text::lemma_split_some(s, sep);
    if s.len() == 0 {
        assert(text::join(text::split(s, sep), seq![sep]) =~= s);
    } else {
        let front = s.drop_last();
        let before = text::split(front, sep);
        text::lemma_split_some(front, sep);
        law_split_undone_by_join(front, sep);
        let pieces = text::split(s, sep);
        assert(s =~= front.push(s.last()));
        if s.last() == sep {
            assert(pieces.drop_last() =~= before);
            assert(text::join(pieces, seq![sep]) =~= s);
        } else {
            assert(pieces.drop_last() =~= before.drop_last());
            assert(pieces.last() =~= before.last().push(s.last()));
            assert(text::join(pieces, seq![sep]) =~= s);
            assert forall|i: int| 0 <= i < pieces.len() implies !(#[trigger] pieces[i]).contains(
                sep,
            ) by {
                if i == pieces.len() - 1 {
                    assert(!before.last().contains(sep));
                    let grown = before.last().push(s.last());
                    if grown.contains(sep) {
                        let k = grown.index_of(sep);
                        if k < before.last().len() {
                            assert(before.last()[k] == sep);
                        }
                    }
                } else {
                    assert(pieces[i] == before[i]);
                }
            }
        }
    }
}

/// Whether `w` is not empty and holds no white space.
pub open spec fn is_word(w: Seq<char>) -> bool {
    w.len() > 0 && forall|k: int| 0 <= k < w.len() ==> !text::white_space(#[trigger] w[k])
}

/// A word is never empty and holds no white space.
pub proof fn law_words(s: Seq<char>)
    ensures
        forall|i: int| 0 <= i < text::words(s).len() ==> is_word(#[trigger] text::words(s)[i]),
        s.len() > 0 && !text::white_space(s.last()) ==> text::words(s).len() > 0,
    decreases s.len(),
{
    if s.len() > 0 {
        let before = text::words(s.drop_last());
        law_words(s.drop_last());
        assert forall|i: int| 0 <= i < text::words(s).len() implies is_word(
            #[trigger] text::words(s)[i],
        ) by {
            if i < before.len() {
                assert(is_word(before[i]));
            }
        }
    }
}

proof fn lemma_trim_start(s: Seq<char>)
    ensures
        text::trim_start(s).len() <= s.len(),
        text::trim_start(s).len() > 0 ==> !text::white_space(text::trim_start(s)[0]),
        text::trim_start(s) == s.skip(s.len() - text::trim_start(s).len()),
    decreases s.len(),
{
    if s.len() > 0 && text::white_space(s[0]) {
        lemma_trim_start(s.drop_first());
        assert(text::trim_start(s) =~= s.skip(s.len() - text::trim_start(s).len()));
    } else {
        assert(s.skip(0) =~= s);
    }
}

proof fn lemma_trim_end(s: Seq<char>)
    ensures
        text::trim_end(s).len() <= s.len(),
        text::trim_end(s).len() > 0 ==> !text::white_space(text::trim_end(s).last()),
        text::trim_end(s) == s.take(text::trim_end(s).len() as int),
    decreases s.len(),
{
    if s.len() > 0 && text::white_space(s.last()) {
        lemma_trim_end(s.drop_last());
        assert(text::trim_end(s) =~= s.take(text::trim_end(s).len() as int));
    } else {
        assert(s.take(s.len() as int) =~= s);
    }
}

/// Trimmed text has no white space at its ends, and trimming it again leaves it
/// as it is.
pub proof fn law_trim(s: Seq<char>)
    ensures
        text::trim(s).len() > 0 ==> !text::white_space(text::trim(s)[0]) && !text::white_space(
            text::trim(s).last(),
        ),
        text::trim(text::trim(s)) == text::trim(s),
{
    lemma_trim_start(s);
    lemma_trim_end(text::trim_start(s));
}

/// White space around a text makes no difference to what is left when it is
/// trimmed.
pub proof fn law_trim_ignores_padding(front: Seq<char>, s: Seq<char>, back: Seq<char>)
    requires
        forall|i: int| 0 <= i < front.len() ==> text::white_space(#[trigger] front[i]),
        forall|i: int| 0 <= i < back.len() ==> text::white_space(#[trigger] back[i]),
    ensures
        text::trim(front + s + back) == text::trim(s),
    decreases front.len() + back.len(),
{
    let whole = front + s + back;
    if front.len() > 0 {
        assert(whole.drop_first() =~= front.drop_first() + s + back);
        law_trim_ignores_padding(front.drop_first(), s, back);
    } else if back.len() > 0 {
        assert(whole.drop_last() =~= front + s + back.drop_last());
        law_trim_ignores_padding(front, s, back.drop_last());
        lemma_trim_drop_last(whole);
    } else {
        assert(whole =~= s);
    }
}

/// White space at the end of a text is trimmed, whatever stands in front.
proof fn lemma_trim_drop_last(s: Seq<char>)
    requires
        s.len() > 0,
        text::white_space(s.last()),
    ensures
        text::trim(s) == text::trim(s.drop_last()),
    decreases s.len(),
{
    if text::white_space(s[0]) {
        if s.len() == 1 {
            assert(s.drop_first() =~= s.drop_last());
        } else {
            lemma_trim_drop_last(s.drop_first());
            assert(s.drop_first().drop_last() =~= s.drop_last().drop_first());
        }
    }
}

/// A search finds the first occurrence, and finds one where there is one.
pub proof fn law_position_is_first(s: Seq<char>, pattern: Seq<char>, from: int)
    requires
        0 <= from,
    ensures
        match text::position(s, pattern, from) {
            Some(i) => from <= i && text::occurs_at(s, pattern, i) && forall|j: int|
                from <= j < i ==> !text::occurs_at(s, pattern, j),
            None => forall|j: int| from <= j ==> !text::occurs_at(s, pattern, j),
        },
    decreases s.len() + 1 - from,
{
    if from <= s.len() - pattern.len() && !text::occurs_at(s, pattern, from) {
        law_position_is_first(s, pattern, from + 1);
    }
}

/// Different numbers are written differently.
pub proof fn law_decimal_is_faithful(a: nat, b: nat)
    requires
        text::decimal(a) == text::decimal(b),
    ensures
        a == b,
    decreases a,
{
    let x = text::decimal(a);
    let y = text::decimal(b);
    assert(x.last() == text::digit(a % 10));
    assert(y.last() == text::digit(b % 10));
    assert(a % 10 == b % 10);
    if a < 10 {
        assert(x.len() == 1);
        if b >= 10 {
            lemma_decimal_some(b / 10);
        }
    } else if b < 10 {
        lemma_decimal_some(a / 10);
    } else {
        assert(x.drop_last() =~= text::decimal(a / 10));
        assert(y.drop_last() =~= text::decimal(b / 10));
        law_decimal_is_faithful(a / 10, b / 10);
    }
}

proof fn lemma_decimal_some(n: nat)
    ensures
        text::decimal(n).len() > 0,
        '0' <= text::decimal(n)[0] <= '9',
    decreases n,
{
    if n >= 10 {
        lemma_decimal_some(n / 10);
    }
}

/// Different signals are written differently.
pub proof fn law_signed_decimal_is_faithful(a: int, b: int)
    requires
        text::signed_decimal(a) == text::signed_decimal(b),
    ensures
        a == b,
{
    let x = text::signed_decimal(a);
    let y = text::signed_decimal(b);
    if a < 0 && b < 0 {
        assert(x.drop_first() =~= text::decimal((-a) as nat));
        assert(y.drop_first() =~= text::decimal((-b) as nat));
        law_decimal_is_faithful((-a) as nat, (-b) as nat);
    } else if a >= 0 && b >= 0 {
        law_decimal_is_faithful(a as nat, b as nat);
    } else if a < 0 {
        lemma_decimal_some(b as nat);
        assert(x[0] == '-');
    } else {
        lemma_decimal_some(a as nat);
        assert(y[0] == '-');
    }
}

/// Splitting goes piece by piece: what stands in front of a separator and what
/// stands behind it are split on their own.
pub proof fn law_split_at_separator<T>(a: Seq<T>, sep: T, b: Seq<T>)
    ensures
        text::split(a.push(sep) + b, sep) == text::split(a, sep) + text::split(b, sep),
    decreases b.len(),
{
    let whole = a.push(sep) + b;
    if b.len() == 0 {
        assert(whole =~= a.push(sep));
        assert(whole.drop_last() =~= a);
        assert(text::split(whole, sep) =~= text::split(a, sep) + text::split(b, sep));
    } else {
        law_split_at_separator(a, sep, b.drop_last());
        text::lemma_split_some(b.drop_last(), sep);
        assert(whole.drop_last() =~= a.push(sep) + b.drop_last());
        assert(text::split(whole, sep) =~= text::split(a, sep) + text::split(b, sep));
    }
}

/// A path is the same path with a separator behind it, and with `/.` behind it.
pub proof fn law_trailing_separator(p: Seq<u8>)
    requires
        p.len() > 0,
    ensures
        path::same_path(p, p.push(0x2f)),
        path::same_path(p, p.push(0x2f).push(0x2e)),
{
    let pieces = text::split(p, 0x2fu8);
    let slashed = p.push(0x2f);
    let dotted = slashed.push(0x2e);
    let dot = seq![0x2eu8];
    text::lemma_split_some(p, 0x2fu8);
    assert(slashed.drop_last() =~= p);
    let more = text::split(slashed, 0x2fu8);
    assert(more =~= pieces.push(Seq::empty()));
    assert(more.drop_last() =~= pieces);
    assert(path::names(more) == path::names(pieces));
    assert(dotted.drop_last() =~= slashed);
    let most = text::split(dotted, 0x2fu8);
    assert(Seq::<u8>::empty().push(0x2e) =~= dot);
    assert(most == more.drop_last().push(more.last().push(0x2e)));
    assert(most.drop_last() =~= pieces);
    assert(most.last() == dot);
    assert(!path::counts(most.last(), most.len() - 1));
    assert(path::names(most) == path::names(pieces));
    assert(path::rooted(dotted) == path::rooted(p));
}

proof fn lemma_names_skip_empty(x: Seq<Seq<u8>>, y: Seq<Seq<u8>>)
    requires
        x.len() > 0,
    ensures
        path::names(x + y) == path::names(x.push(Seq::empty()) + y),
    decreases y.len(),
{
    let short = x + y;
    let long = x.push(Seq::empty()) + y;
    if y.len() == 0 {
        assert(short =~= x);
        assert(long =~= x.push(Seq::empty()));
        assert(long.drop_last() =~= x);
    } else {
        lemma_names_skip_empty(x, y.drop_last());
        assert(short.drop_last() =~= x + y.drop_last());
        assert(long.drop_last() =~= x.push(Seq::empty()) + y.drop_last());
    }
}

/// A separator twice is the same as a separator once.
pub proof fn law_repeated_separator(a: Seq<u8>, b: Seq<u8>)
    ensures
        path::same_path(a.push(0x2f) + b, a.push(0x2f).push(0x2f) + b),
{
    let once = a.push(0x2f) + b;
    let twice = a.push(0x2f).push(0x2f) + b;
    law_split_at_separator(a, 0x2fu8, b);
    law_split_at_separator(a.push(0x2f), 0x2fu8, b);
    text::lemma_split_some(a, 0x2fu8);
    assert(a.push(0x2f).drop_last() =~= a);
    lemma_names_skip_empty(text::split(a, 0x2fu8), text::split(b, 0x2fu8));
    if a.len() > 0 {
        assert(once[0] == a[0] && twice[0] == a[0]);
    } else {
        assert(once[0] == 0x2f && twice[0] == 0x2f);
    }
}

/// Having the same components is an equivalence.
pub proof fn law_same_path_is_equivalence(a: Seq<u8>, b: Seq<u8>, c: Seq<u8>)
    ensures
        path::same_path(a, a),
        path::same_path(a, b) ==> path::same_path(b, a),
        path::same_path(a, b) && path::same_path(b, c) ==> path::same_path(a, c),
{
}

/// What holds no separator is a single piece.
pub proof fn law_split_without_separator<T>(s: Seq<T>, sep: T)
    requires
        !s.contains(sep),
    ensures
        text::split(s, sep) == seq![s],
    decreases s.len(),
{
    if s.len() > 0 {
        assert forall|i: int| 0 <= i < s.drop_last().len() implies s.drop_last()[i] != sep by {
            assert(s.contains(s[i]));
        }
        law_split_without_separator(s.drop_last(), sep);
        assert(s.contains(s.last()));
        assert(s.drop_last().push(s.last()) =~= s);
        assert(text::split(s, sep) =~= seq![s]);
    } else {
        assert(s =~= Seq::empty());
    }
}

/// A name joined to a directory is the last of the names of the path, below
/// those of the directory.
pub proof fn law_joined_is_below(dir: Seq<u8>, name: Seq<u8>)
    requires
        name.len() > 0,
        !name.contains(0x2f),
        name != seq![0x2eu8],
    ensures
        path::names(text::split(path::joined(dir, name), 0x2fu8)) == path::names(
            text::split(dir, 0x2fu8),
        ).push(name),
        dir.len() > 0 ==> path::rooted(path::joined(dir, name)) == path::rooted(dir),
{
    let whole = path::joined(dir, name);
    assert(name.contains(name[0]));
    law_split_without_separator(name, 0x2fu8);
    if dir.len() == 0 {
        assert(whole =~= name);
        assert(text::split(dir, 0x2fu8) =~= seq![Seq::<u8>::empty()]);
        assert(seq![Seq::<u8>::empty()].drop_last() =~= Seq::empty());
        assert(seq![name].drop_last() =~= Seq::empty());
        assert(path::names(Seq::<Seq<u8>>::empty()) =~= Seq::empty());
        assert(path::names(seq![Seq::<u8>::empty()]) =~= Seq::empty());
        assert(path::names(seq![name]) =~= seq![name]);
        assert(Seq::<Seq<u8>>::empty().push(name) =~= seq![name]);
    } else {
        let front = if dir.last() == 0x2f {
            dir.drop_last()
        } else {
            dir
        };
        let pieces = text::split(front, 0x2fu8);
        text::lemma_split_some(front, 0x2fu8);
        assert(whole =~= front.push(0x2f) + name);
        law_split_at_separator(front, 0x2fu8, name);
        assert(pieces + seq![name] =~= pieces.push(name));
        assert(pieces.push(name).drop_last() =~= pieces);
        if dir.last() == 0x2f {
            assert(pieces.push(Seq::<u8>::empty()).drop_last() =~= pieces);
        }
    }
}

/// The search for the binary ends at the first place that has a file, and
/// without success only where no place has one. It is made by taking the place
/// in front where it has a file, and going on to the next where it has none.
pub proof fn law_lookup_takes_first(places: Seq<Seq<u8>>, is_file: spec_fn(Seq<u8>) -> bool)
    ensures
        match lookup::first_file(places, is_file) {
            Some(p) => is_file(p) && exists|i: int|
                0 <= i < places.len() && #[trigger] places[i] == p && forall|j: int|
                    0 <= j < i ==> !is_file(#[trigger] places[j]),
            None => forall|j: int| 0 <= j < places.len() ==> !is_file(#[trigger] places[j]),
        },
        places.len() > 0 ==> lookup::first_file(places, is_file) == if is_file(places[0]) {
            Some(places[0])
        } else {
            lookup::first_file(places.drop_first(), is_file)
        },
    decreases places.len(),
{
    if places.len() > 0 {
        if is_file(places[0]) {
            assert(places[0] == lookup::first_file(places, is_file)->0);
        } else {
            let rest = places.drop_first();
            law_lookup_takes_first(rest, is_file);
            match lookup::first_file(rest, is_file) {
                Some(p) => {
                    let i = choose|i: int|
                        0 <= i < rest.len() && #[trigger] rest[i] == p && forall|j: int|
                            0 <= j < i ==> !is_file(#[trigger] rest[j]);
                    assert(places[i + 1] == p);
                    assert forall|j: int| 0 <= j < i + 1 implies !is_file(#[trigger] places[j]) by {
                        if j > 0 {
                            assert(rest[j - 1] == places[j]);
                        }
                    }
                },
                None => {
                    assert forall|j: int| 0 <= j < places.len() implies !is_file(
                        #[trigger] places[j],
                    ) by {
                        if j > 0 {
                            assert(rest[j - 1] == places[j]);
                        }
                    }
                },
            }
        }
    }
}

/// Temporary files with different names are different files.
pub proof fn law_temporary_files_differ(dir: Seq<u8>, a: Seq<char>, b: Seq<char>)
    requires
        client::temporary(dir, a) == client::temporary(dir, b),
    ensures
        a == b,
{
    let front = path::lossy(dir) + "/runc-process-"@;
    assert((front + a).skip(front.len() as int) =~= a);
    assert((front + b).skip(front.len() as int) =~= b);
}

proof fn lemma_open_count(args: Seq<ArgView>, from: int)
    requires
        0 <= from <= args.len(),
    ensures
        invocation::open_count(args, from) == 0 <==> invocation::first_open(args, from)
            == args.len(),
    decreases args.len() - from,
{
    invocation::lemma_first_open(args, from);
    if from < args.len() {
        lemma_open_count(args, from + 1);
        invocation::lemma_first_open(args, from + 1);
    }
}

proof fn lemma_open_count_filled(args: Seq<ArgView>, at: int, word: Seq<char>, from: int)
    requires
        0 <= from,
        0 <= at < args.len(),
        args[at] is Canonical,
    ensures
        invocation::open_count(args.update(at, ArgView::Text(word)), from)
            == invocation::open_count(args, from) - if from <= at {
            1int
        } else {
            0int
        },
    decreases args.len() - from,
{
    if from < args.len() {
        lemma_open_count_filled(args, at, word, from + 1);
    }
}

/// Each answer of the host leaves one path less to ask for, and all other
/// arguments as they are.
pub proof fn law_answer_settles_one(
    inv: InvocationView,
    canonical: spec_fn(Seq<u8>) -> HostPath,
)
    requires
        inv.pending() is Some,
    ensures
        inv.answered(canonical(inv.pending()->0)@).open_total() == inv.open_total() - 1,
        inv.answered(canonical(inv.pending()->0)@).on_host(canonical) == inv.on_host(canonical),
{
    let p = inv.pending()->0;
    let word = path::lossy(canonical(p)@);
    invocation::lemma_first_open(inv.args, 0);
    invocation::lemma_first_open(inv.globals, 0);
    let after = inv.answered(canonical(p)@);
    if invocation::open_path(inv.args) is Some {
        let at = invocation::first_open(inv.args, 0);
        lemma_open_count_filled(inv.args, at, word, 0);
        assert(after.on_host(canonical).args =~= inv.on_host(canonical).args);
    } else {
        let at = invocation::first_open(inv.globals, 0);
        lemma_open_count_filled(inv.globals, at, word, 0);
        assert(after.on_host(canonical).globals =~= inv.on_host(canonical).globals);
    }
}

/// The host is asked for a path as long as there is one to ask for.
pub proof fn law_pending_while_open(inv: InvocationView)
    ensures
        inv.pending() is Some <==> inv.open_total() > 0,
{
    invocation::lemma_first_open(inv.args, 0);
    invocation::lemma_first_open(inv.globals, 0);
    lemma_open_count(inv.args, 0);
    lemma_open_count(inv.globals, 0);
}

proof fn lemma_settled(inv: InvocationView, canonical: spec_fn(Seq<u8>) -> HostPath)
    requires
        inv.open_total() == 0,
    ensures
        inv.on_host(canonical) == inv,
{
    invocation::lemma_first_open(inv.args, 0);
    invocation::lemma_first_open(inv.globals, 0);
    lemma_open_count(inv.args, 0);
    lemma_open_count(inv.globals, 0);
    assert(inv.on_host(canonical).args =~= inv.args);
    assert(inv.on_host(canonical).globals =~= inv.globals);
}

proof fn lemma_resolving(t: TaskView, canonical: spec_fn(Seq<u8>) -> HostPath, n: nat)
    requires
        t.stage is Launch,
        n <= t.invocation.open_total(),
    ensures
        t.resolved(canonical, n).stage == t.stage,
        t.resolved(canonical, n).wanted == t.wanted,
        t.resolved(canonical, n).invocation.open_total() == t.invocation.open_total() - n,
        t.resolved(canonical, n).invocation.on_host(canonical) == t.invocation.on_host(canonical),
    decreases n,
{
    if n > 0 {
        let before = t.resolved(canonical, (n - 1) as nat);
        lemma_resolving(t, canonical, (n - 1) as nat);
        law_pending_while_open(before.invocation);
        law_answer_settles_one(before.invocation, canonical);
    }
}

/// A call, once it has its file where it needs one, runs runc with the options
/// of the client and the command, in this order and with each path in its
/// canonical form. Its outcome is what the end of that run means, and the file
/// is removed.
pub proof fn law_call_runs_its_command_line(
    t: TaskView,
    temporary: Option<Seq<char>>,
    canonical: spec_fn(Seq<u8>) -> HostPath,
    end: CommandEnd,
)
    requires
        t.stage == (StageView::Launch { temporary }),
    ensures
        forall|n: nat|
            n < t.invocation.open_total() ==> (#[trigger] t.resolved(
                canonical,
                n,
            )).action() is Resolve,
        ({
            let ready = t.resolved(canonical, t.invocation.open_total());
            &&& ready.invocation == t.invocation.on_host(canonical)
            &&& ready.action() == ActionView::Run(t.invocation.on_host(canonical).argv()->0)
            &&& t.invocation.on_host(canonical).argv() is Some
            &&& ready.next(HostReply::Ended(end)).stage == task::ended(
                temporary,
                command::given_back(end, t.wanted, t.invocation.combined_output),
            )
        }),
{
    assert forall|n: nat| n < t.invocation.open_total() implies (#[trigger] t.resolved(
        canonical,
        n,
    )).action() is Resolve by {
        lemma_resolving(t, canonical, n);
        law_pending_while_open(t.resolved(canonical, n).invocation);
    }
    let total = t.invocation.open_total();
    let ready = t.resolved(canonical, total);
    lemma_resolving(t, canonical, total);
    lemma_settled(ready.invocation, canonical);
    law_pending_while_open(ready.invocation);
    assert(ready.invocation.combined_output == t.invocation.on_host(canonical).combined_output);
}

proof fn lemma_host_leaves_none(args: Seq<ArgView>, canonical: spec_fn(Seq<u8>) -> HostPath)
    ensures
        invocation::open_path(
            args.map_values(|a: ArgView| invocation::settled(a, canonical)),
        ) is None,
{
    invocation::lemma_first_open(
        args.map_values(|a: ArgView| invocation::settled(a, canonical)),
        0,
    );
}

/// The words of a part of a command line, on a host that finds `canonical(p)`
/// for the path `p`.
pub open spec fn words_on_host(
    args: Seq<ArgView>,
    canonical: spec_fn(Seq<u8>) -> HostPath,
) -> Seq<Seq<char>> {
    args.map_values(|a: ArgView| invocation::word(invocation::settled(a, canonical)))
}

/// The options of the client stand in front of each command: the line of a
/// command is that of the options followed by the words of the command. An empty
/// command gives the options alone, and the line of a command with further words
/// is its line followed by those words.
pub proof fn law_options_stand_in_front(
    runc: client::RuncView,
    a: Seq<ArgView>,
    b: Seq<ArgView>,
    combined_output: bool,
    canonical: spec_fn(Seq<u8>) -> HostPath,
)
    ensures
        ({
            let options = words_on_host(runc.options(), canonical);
            let line = |args: Seq<ArgView>|
                runc.run_of(args, combined_output).on_host(canonical).argv();
            &&& line(Seq::empty()) == Some(options)
            &&& line(a) == Some(options + words_on_host(a, canonical))
            &&& line(a + b) == Some(line(a)->0 + words_on_host(b, canonical))
        }),
{
    let none = Seq::<ArgView>::empty();
    lemma_host_leaves_none(runc.options(), canonical);
    lemma_host_leaves_none(none, canonical);
    lemma_host_leaves_none(a, canonical);
    lemma_host_leaves_none(a + b, canonical);
    let options = words_on_host(runc.options(), canonical);
    let line = |args: Seq<ArgView>|
        runc.run_of(args, combined_output).on_host(canonical).argv();
    assert(line(none)->0 =~= options);
    assert(line(a)->0 =~= options + words_on_host(a, canonical));
    assert(line(a + b)->0 =~= line(a)->0 + words_on_host(b, canonical));
}

/// Where the host cannot find a path of the client's options, no command can be
/// run: a command whose own paths are known asks for the same path as an empty
/// one, and the error of the host is its outcome.
pub proof fn law_options_that_fail(
    runc: client::RuncView,
    args: Seq<ArgView>,
    combined_output: bool,
    e: crate::error::IoError,
)
    requires
        invocation::open_path(args) is None,
        invocation::open_path(runc.options()) is Some,
    ensures
        runc.run_of(args, combined_output).argv() is None,
        runc.run_of(args, combined_output).pending() == runc.run_of(
            Seq::empty(),
            combined_output,
        ).pending(),
        runc.call(args, combined_output).next(HostReply::Resolved(Err(e))).stage == task::finished(
            Err(ErrorView::IoError(e@)),
        ),
        runc.status_call(args).next(HostReply::Resolved(Err(e))).stage == task::finished(
            Err(ErrorView::IoError(e@)),
        ),
{
}

/// A call that needs no file asks for none.
pub proof fn law_plain_call_touches_no_file(t: TaskView, replies: Seq<HostReply>)
    requires
        t.stage == (StageView::Launch { temporary: None }),
    ensures
        match t.after(replies).action() {
            ActionView::Resolve(_) => true,
            ActionView::Run(_) => true,
            ActionView::Finish => true,
            _ => false,
        },
        t.after(replies).stage == t.stage || t.after(replies).stage is Finished,
    decreases replies.len(),
{
    if replies.len() > 0 {
        law_plain_call_touches_no_file(t, replies.drop_last());
    }
}

/// A call that is finished stays so, with its outcome.
pub proof fn law_finished_is_final(t: TaskView, replies: Seq<HostReply>)
    requires
        t.stage is Finished,
    ensures
        t.after(replies) == t,
        t.action() == ActionView::Finish,
    decreases replies.len(),
{
    if replies.len() > 0 {
        law_finished_is_final(t, replies.drop_last());
    }
}

/// Whether a reply of the host is one to the action.
pub open spec fn answers(reply: HostReply, action: ActionView) -> bool {
    match action {
        ActionView::Encode => reply is Encoded,
        ActionView::Create(_) => reply is Created,
        ActionView::Write(_) => reply is Written,
        ActionView::Flush => reply is Flushed,
        ActionView::Resolve(_) => reply is Resolved,
        ActionView::Run(_) => reply is Ended,
        ActionView::Remove(_) => reply is Removed,
        ActionView::Finish => false,
    }
}

/// A bound on the actions that a call still asks for.
pub open spec fn steps_left(t: TaskView) -> nat {
    match t.stage {
        StageView::Encode { .. } => 6 + t.invocation.open_total(),
        StageView::Create { .. } => 5 + t.invocation.open_total(),
        StageView::Write { .. } => 4 + t.invocation.open_total(),
        StageView::Flush { .. } => 3 + t.invocation.open_total(),
        StageView::Launch { .. } => 2 + t.invocation.open_total(),
        StageView::Remove { .. } => 1,
        StageView::Finished { .. } => 0,
    }
}

/// Each call comes to an end: a reply that answers the action leaves fewer
/// actions to ask for, and with none left the outcome is there.
pub proof fn law_call_comes_to_an_end(t: TaskView, reply: HostReply)
    requires
        answers(reply, t.action()),
    ensures
        steps_left(t.next(reply)) < steps_left(t),
        steps_left(t.next(reply)) == 0 <==> t.next(reply).stage is Finished,
{
    if t.action() is Resolve {
        if let HostReply::Resolved(Ok(path)) = reply {
            law_answer_settles_one(t.invocation, |p: Seq<u8>| path);
        }
    }
}

/// A reply to anything but the action that was asked for changes nothing.
pub proof fn law_other_replies_change_nothing(t: TaskView, reply: HostReply)
    requires
        !answers(reply, t.action()),
    ensures
        t.next(reply) == t,
{
}

/// A specification is encoded, its file created, written and flushed, in this
/// order, before runc is run.
pub proof fn law_specification_is_written_first(t: TaskView, file: Seq<char>, json: String)
    requires
        t.stage == (StageView::Encode { file }),
    ensures
        ({
            let encoded = t.next(HostReply::Encoded(Ok(json)));
            let created = encoded.next(HostReply::Created(Ok(())));
            let written = created.next(HostReply::Written(Ok(())));
            let flushed = written.next(HostReply::Flushed(Ok(())));
            &&& t.action() == ActionView::Encode
            &&& encoded.action() == ActionView::Create(file)
            &&& created.action() == ActionView::Write(json@)
            &&& written.action() == ActionView::Flush
            &&& flushed == TaskView {
                stage: StageView::Launch { temporary: Some(file) },
                ..t
            }
        }),
{
}

/// Whether the file of a specification is still to be made.
pub open spec fn preparing(stage: StageView) -> bool {
    stage is Encode || stage is Create || stage is Write || stage is Flush
}

/// Runc is not run before the file of its specification is flushed, and not at
/// all where a step towards that failed.
pub proof fn law_no_run_without_file(t: TaskView, reply: HostReply)
    requires
        preparing(t.stage),
    ensures
        !(t.action() is Run),
        t.next(reply).stage is Launch ==> t.stage is Flush && (reply matches
            HostReply::Flushed(done) && done is Ok),
        t.next(reply).stage is Launch || t.next(reply).stage is Finished || preparing(
            t.next(reply).stage,
        ),
{
}

/// When runc was run with a specification, its file is removed before the call
/// is finished, and the outcome is that of the run unless the removal failed.
pub proof fn law_file_is_removed_after_run(
    t: TaskView,
    file: Seq<char>,
    end: CommandEnd,
    replies: Seq<HostReply>,
)
    requires
        t.stage == (StageView::Launch { temporary: Some(file) }),
        t.invocation.pending() is None,
    ensures
        ({
            let ran = t.next(HostReply::Ended(end));
            let outcome = command::given_back(end, t.wanted, t.invocation.combined_output);
            &&& ran.action() == ActionView::Remove(file)
            &&& match ran.after(replies).stage {
                StageView::Remove { file: f, outcome: o } => f == file && o == outcome,
                StageView::Finished { outcome: o } => exists|i: int|
                    0 <= i < replies.len() && match #[trigger] replies[i] {
                        HostReply::Removed(Ok(_)) => o == outcome,
                        HostReply::Removed(Err(e)) => o == Err::<AnswerView, ErrorView>(
                            ErrorView::IoError(e@),
                        ),
                        _ => false,
                    },
                _ => false,
            }
        }),
    decreases replies.len(),
{
    if replies.len() > 0 {
        let front = replies.drop_last();
        law_file_is_removed_after_run(t, file, end, front);
        let ran = t.next(HostReply::Ended(end));
        let outcome = command::given_back(end, t.wanted, t.invocation.combined_output);
        match ran.after(front).stage {
            StageView::Finished { outcome: o } => {
                let i = choose|i: int|
                    0 <= i < front.len() && match #[trigger] front[i] {
                        HostReply::Removed(Ok(_)) => o == outcome,
                        HostReply::Removed(Err(e)) => o == Err::<AnswerView, ErrorView>(
                            ErrorView::IoError(e@),
                        ),
                        _ => false,
                    };
                assert(replies[i] == front[i]);
            },
            _ => {
                assert(replies[replies.len() - 1] == replies.last());
            },
        }
    }
}

/// A command line that cannot be completed ends the call with the error of the
/// host. The file of a specification goes where an option of the client was at
/// fault, and stays where the command was.
pub proof fn law_path_that_cannot_be_found(
    t: TaskView,
    temporary: Option<Seq<char>>,
    e: crate::error::IoError,
)
    requires
        t.stage == (StageView::Launch { temporary }),
        t.invocation.pending() is Some,
    ensures
        ({
            let failed = t.next(HostReply::Resolved(Err(e)));
            let outcome = Err::<AnswerView, ErrorView>(ErrorView::IoError(e@));
            if temporary is Some && invocation::open_path(t.invocation.args) is None {
                failed.stage == StageView::Remove { file: temporary->0, outcome }
            } else {
                failed.stage == StageView::Finished { outcome }
            }
        }),
{
}

/// Where both outputs of runc are text, the combined answer is the one followed
/// by the other.
pub proof fn law_combined_answer(stdout: Vec<u8>, stderr: Vec<u8>)
    requires
        utf8::valid_utf8(stdout@),
        utf8::valid_utf8(stderr@),
    ensures
        command::answer(CommandEnd::Exited { status: Some(0), stdout, stderr }, true) == Ok::<
            Seq<char>,
            ErrorView,
        >(utf8::decode_utf8(stdout@) + utf8::decode_utf8(stderr@)),
{
    let both = stdout@ + stderr@;
    let a = utf8::decode_utf8(stdout@);
    let b = utf8::decode_utf8(stderr@);
    utf8::valid_utf8_concat(stdout@, stderr@);
    utf8::decode_utf8_encode_utf8(stdout@);
    utf8::decode_utf8_encode_utf8(stderr@);
    lemma_encode_concat(a, b);
    utf8::encode_utf8_decode_utf8(a + b);
}

proof fn lemma_encode_concat(a: Seq<char>, b: Seq<char>)
    ensures
        utf8::encode_utf8(a + b) == utf8::encode_utf8(a) + utf8::encode_utf8(b),
    decreases a.len(),
{
    if a.len() == 0 {
        assert(a + b =~= b);
        assert(utf8::encode_utf8(a + b) =~= utf8::encode_utf8(a) + utf8::encode_utf8(b));
    } else {
        lemma_encode_concat(a.drop_first(), b);
        assert((a + b).drop_first() =~= a.drop_first() + b);
        assert(utf8::encode_utf8(a + b) =~= utf8::encode_utf8(a) + utf8::encode_utf8(b));
    }
}

/// There is an answer only where runc came to a successful end.
pub proof fn law_answer_only_of_success(end: CommandEnd, combined_output: bool)
    ensures
        command::answer(end, combined_output) is Ok ==> (end matches CommandEnd::Exited {
            status,
            ..
        } && command::succeeded(status)),
        end == CommandEnd::Failed(crate::error::TimeoutError::Elapsed) ==> command::answer(
            end,
            combined_output,
        ) == Err::<Seq<char>, ErrorView>(ErrorView::CommandTimeout),
{
}

/// A run of a container gives its exit status back: each status with which runc
/// comes to an end of its own, a success or not, and nothing for an end by a
/// signal, whatever runc printed. Where runc is to detach, the run gives back
/// its output on success, and fails on any other status.
pub proof fn law_run_returns_exit_status(
    runc: client::RuncView,
    id: Seq<char>,
    bundle: Seq<u8>,
    opts: Option<&CreateOpts>,
    canonical: spec_fn(Seq<u8>) -> HostPath,
    end: CommandEnd,
)
    ensures
        ({
            let t = runc.run_call(id, bundle, opts);
            let ran = t.resolved(canonical, t.invocation.open_total()).next(HostReply::Ended(end));
            ran.stage == task::finished(
                match end {
                    CommandEnd::Exited { status, .. } => if client::detaches(opts) {
                        match command::answer(end, true) {
                            Ok(text) => Ok(AnswerView::Output(text)),
                            Err(e) => Err(e),
                        }
                    } else {
                        Ok(AnswerView::Status(status))
                    },
                    CommandEnd::NotSpawned(e) => Err(ErrorView::IoError(e@)),
                    CommandEnd::Failed(e) => Err(command::timeout_view(e)),
                },
            )
        }),
        client::detaches(opts) && (end matches CommandEnd::Exited { status, .. }
            && !command::succeeded(status)) ==> command::answer(end, true) is Err,
{
    law_call_runs_its_command_line(runc.run_call(id, bundle, opts), None, canonical, end);
}

/// Whether an outcome, if it is a success, is what is wanted of the call.
pub open spec fn fits(outcome: Result<AnswerView, ErrorView>, wanted: Wanted) -> bool {
    match outcome {
        Ok(AnswerView::Output(_)) => wanted == Wanted::Output,
        Ok(AnswerView::Status(_)) => wanted == Wanted::Status,
        Err(_) => true,
    }
}

/// Whether the outcome, as far as there is one, is what is wanted of the call.
pub open spec fn outcome_fits(t: TaskView) -> bool {
    match t.stage {
        StageView::Remove { outcome, .. } => fits(outcome, t.wanted),
        StageView::Finished { outcome } => fits(outcome, t.wanted),
        _ => true,
    }
}

/// A call that was made for an exit status gives back a status or an error,
/// never an output, and one that was made for an output never a status.
pub proof fn law_call_gives_back_what_is_wanted(t: TaskView, replies: Seq<HostReply>)
    requires
        outcome_fits(t),
    ensures
        t.after(replies).wanted == t.wanted,
        outcome_fits(t.after(replies)),
    decreases replies.len(),
{
    if replies.len() > 0 {
        law_call_gives_back_what_is_wanted(t, replies.drop_last());
    }
}

/// Reading line by line loses no byte and makes none up: for each of the two
/// outputs, the lines that were delivered and what is left of it are, in order,
/// the bytes that were there and those that were received.
pub proof fn law_stream_loses_nothing(s: StreamView, events: Seq<ReadEvent>, source: Source)
    ensures
        s.delivered(events, source) + s.after(events).buf(source) == s.buf(source) + s.received(
            events,
            source,
        ),
    decreases events.len(),
{
    if events.len() == 0 {
        assert(s.delivered(events, source) + s.after(events).buf(source) =~= s.buf(source)
            + s.received(events, source));
    } else {
        let front = events.drop_last();
        let event = events.last();
        let before = s.after(front);
        law_stream_loses_nothing(s, front, source);
        let grown = stream::fed(before.buf(before.source()), event);
        if utf8::valid_utf8(grown) {
            utf8::decode_utf8_encode_utf8(grown);
        }
        let lines = s.delivered(front, source);
        let bytes = s.received(front, source);
        if before.source() == source {
            assert(s.buf(source) + stream::fed(bytes, event) =~= stream::fed(
                s.buf(source) + bytes,
                event,
            ));
            assert(lines + grown =~= stream::fed(lines + before.buf(source), event));
            assert(s.delivered(events, source) + before.next(event).buf(source) =~= lines + grown);
        } else {
            assert(before.next(event).buf(source) == before.buf(source));
        }
    }
}

/// Whether no newline stands among the bytes.
pub open spec fn open_line(buf: Seq<u8>) -> bool {
    forall|i: int| 0 <= i < buf.len() ==> #[trigger] buf[i] != 0x0a
}

/// A line that is delivered ends in the only newline that it has, where the
/// stream held no newline before. Only a line that is no text is held back with
/// its newline.
pub proof fn law_stream_delivers_lines(s: StreamView, event: ReadEvent)
    requires
        open_line(s.stdout_buf),
        open_line(s.stderr_buf),
    ensures
        s.outcome(event) matches Ok(StepView::Line(line)) ==> {
            let bytes = utf8::encode_utf8(line);
            stream::complete(bytes) && open_line(bytes.drop_last())
        },
        s.outcome(event) != Err::<StepView, ErrorView>(ErrorView::UnicodeError) ==> open_line(
            s.next(event).stdout_buf,
        ) && open_line(s.next(event).stderr_buf),
{
    let grown = stream::fed(s.buf(s.source()), event);
    if utf8::valid_utf8(grown) {
        utf8::decode_utf8_encode_utf8(grown);
    }
    if event is Byte {
        assert(grown.drop_last() =~= s.buf(s.source()));
    }
}

/// A stream that does not combine the outputs reads standard output only.
pub proof fn law_stream_without_stderr(s: StreamView, events: Seq<ReadEvent>)
    requires
        !s.combined_output,
        s.turn == Turn::Stdout,
    ensures
        s.after(events).source() == Source::Stdout,
        s.after(events).stderr_buf == s.stderr_buf,
        !s.after(events).combined_output,
    decreases events.len(),
{
    if events.len() > 0 {
        law_stream_without_stderr(s, events.drop_last());
    }
}

/// A stream that combines the outputs says that nothing is ready only when
/// neither of them had a byte.
pub proof fn law_stream_not_ready(s: StreamView, event: ReadEvent)
    requires
        s.outcome(event) == Ok::<StepView, ErrorView>(StepView::NotReady),
    ensures
        event is NotReady,
        s.combined_output ==> s.turn == (Turn::Stderr { stdout_ready: false }),
        s.next(event).turn == Turn::Stdout,
        s.next(event).stdout_buf == s.stdout_buf,
        s.next(event).stderr_buf == s.stderr_buf,
{
}

/// The file descriptor that a message brought.
pub open spec fn carried(reply: PtyReply) -> Option<i32> {
    match reply {
        PtyReply::Received { ret, control } => match control {
            Control::Descriptor(fd) if ret >= 0 => Some(fd),
            _ => None,
        },
        PtyReply::Accepted(_) => None,
    }
}

/// The terminal that is received is the first that a message carries. Messages
/// that carry nothing are passed over.
pub proof fn law_first_terminal_is_received(p: PtyView, replies: Seq<PtyReply>)
    requires
        p.stage == PtyStage::Connected,
    ensures
        match p.after(replies).stage {
            PtyStage::Holding(fd) => exists|i: int|
                0 <= i < replies.len() && carried(#[trigger] replies[i]) == Some(fd) && forall|
                    j: int,
                |
                    0 <= j < i ==> carried(#[trigger] replies[j]) is None,
            PtyStage::Connected => forall|j: int|
                0 <= j < replies.len() ==> carried(#[trigger] replies[j]) is None,
            PtyStage::Listening => false,
        },
    decreases replies.len(),
{
    if replies.len() > 0 {
        let front = replies.drop_last();
        let last = replies.len() - 1;
        law_first_terminal_is_received(p, front);
        match p.after(front).stage {
            PtyStage::Holding(fd) => {
                let i = choose|i: int|
                    0 <= i < front.len() && carried(#[trigger] front[i]) == Some(fd) && forall|
                        j: int,
                    |
                        0 <= j < i ==> carried(#[trigger] front[j]) is None;
                assert(carried(replies[i]) == Some(fd));
                assert forall|j: int| 0 <= j < i implies carried(#[trigger] replies[j]) is None by {
                    assert(front[j] == replies[j]);
                }
            },
            _ => {
                assert forall|j: int| 0 <= j < last implies carried(
                    #[trigger] replies[j],
                ) is None by {
                    assert(front[j] == replies[j]);
                }
                assert(replies[last] == replies.last());
            },
        }
    }
}

/// A row of the process table has a value for each header and for nothing else,
/// and where no later column has the same header, it is the cell of the column.
pub proof fn law_row_follows_headers(headers: Seq<Seq<char>>, fields: Seq<Seq<char>>, n: int)
    requires
        0 <= n <= headers.len(),
    ensures
        forall|k: Seq<char>| #[trigger]
            reply::row(headers, fields, n).contains_key(k) <==> exists|j: int|
                0 <= j < n && #[trigger] headers[j] == k,
        forall|j: int|
            0 <= j < n && (forall|m: int| j < m < n ==> headers[m] != headers[j])
                ==> reply::row(headers, fields, n)[#[trigger] headers[j]] == reply::cell(
                fields,
                headers.len() as int,
                j,
            ),
    decreases n,
{
    if n > 0 {
        law_row_follows_headers(headers, fields, n - 1);
        let before = reply::row(headers, fields, n - 1);
        assert forall|k: Seq<char>| #[trigger]
            reply::row(headers, fields, n).contains_key(k) <==> exists|j: int|
                0 <= j < n && #[trigger] headers[j] == k by {
            if k == headers[n - 1] {
                assert(headers[n - 1] == k);
            } else {
                assert(reply::row(headers, fields, n).contains_key(k) == before.contains_key(k));
            }
        }
    }
}

/// The number of lines that stand for a process.
pub open spec fn process_count(lines: Seq<Seq<char>>, pid: int) -> nat
    decreases lines.len(),
{
    if lines.len() == 0 {
        0
    } else {
        process_count(lines.drop_last(), pid) + if reply::is_process(lines.last(), pid) {
            1nat
        } else {
            0nat
        }
    }
}

/// The process table has a row for each line that stands for a process, and the
/// headers of each row are those of the table.
pub proof fn law_table_lists_each_process(
    lines: Seq<Seq<char>>,
    headers: Seq<Seq<char>>,
    pid: int,
)
    ensures
        reply::processes(lines, headers, pid).len() == process_count(lines, pid),
        forall|i: int, k: Seq<char>|
            0 <= i < reply::processes(lines, headers, pid).len() ==> (
            #[trigger] reply::processes(lines, headers, pid)[i].contains_key(k)
                <==> headers.contains(k)),
    decreases lines.len(),
{
    if lines.len() > 0 {
        law_table_lists_each_process(lines.drop_last(), headers, pid);
        let before = reply::processes(lines.drop_last(), headers, pid);
        let all = reply::processes(lines, headers, pid);
        law_row_follows_headers(headers, text::words(lines.last()), headers.len() as int);
        assert forall|i: int, k: Seq<char>| 0 <= i < all.len() implies (
        #[trigger] all[i].contains_key(k) <==> headers.contains(k)) by {
            if i < before.len() {
                assert(all[i] == before[i]);
            }
        }
    }
}

/// The columns in front of the last one are the words of the line, one each.
/// The last holds the words that are left, with a space between each two, and
/// nothing where none is left.
pub proof fn law_last_column_takes_the_rest(fields: Seq<Seq<char>>, width: int)
    requires
        1 <= width <= fields.len() + 1,
    ensures
        forall|j: int| 0 <= j < width - 1 ==> #[trigger] reply::cell(fields, width, j) == fields[j],
        fields.len() == width - 1 ==> reply::cell(fields, width, width - 1) == Seq::<char>::empty(),
        fields.len() == width ==> reply::cell(fields, width, width - 1) == fields[width - 1],
        fields.len() > width ==> reply::cell(fields, width, width - 1) == text::join(
            fields.subrange(width - 1, fields.len() - 1),
            " "@,
        ) + " "@ + fields.last(),
{
    let rest = fields.skip(width - 1);
    if fields.len() > width {
        assert(rest.drop_last() =~= fields.subrange(width - 1, fields.len() - 1));
    }
}

/// An answer of `null`, with any white space around it, is an empty list.
pub proof fn law_null_is_an_empty_list(front: Seq<char>, back: Seq<char>)
    requires
        forall|i: int| 0 <= i < front.len() ==> text::white_space(#[trigger] front[i]),
        forall|i: int| 0 <= i < back.len() ==> text::white_space(#[trigger] back[i]),
    ensures
        reply::payload(front + "null"@ + back) is None,
{
    reveal_strlit("null");
    law_trim_ignores_padding(front, "null"@, back);
    assert(text::trim_start("null"@) == "null"@);
    assert(text::trim_end("null"@) == "null"@);
}

/// A pattern does not stand in `front + s` where it does not stand in `s` and
/// its first character is not in `front`.
proof fn lemma_not_within(front: Seq<char>, s: Seq<char>, pattern: Seq<char>)
    requires
        pattern.len() > 0,
        !front.contains(pattern[0]),
        !text::within(s, pattern),
    ensures
        !text::within(front + s, pattern),
{
    let whole = front + s;
    law_position_is_first(s, pattern, 0);
    law_position_is_first(whole, pattern, 0);
    assert forall|i: int| 0 <= i implies !text::occurs_at(whole, pattern, i) by {
        if text::occurs_at(whole, pattern, i) {
            assert(whole.subrange(i, i + pattern.len())[0] == pattern[0]);
            if i < front.len() {
                assert(front.contains(front[i]));
            } else {
                let k = i - front.len();
                assert(s.subrange(k, k + pattern.len()) =~= whole.subrange(i, i + pattern.len()));
                assert(text::occurs_at(s, pattern, k));
            }
        }
    }
}

/// A pattern with a character that `s` does not have does not stand in `s`.
proof fn lemma_not_within_without(s: Seq<char>, pattern: Seq<char>, k: int)
    requires
        0 <= k < pattern.len(),
        !s.contains(pattern[k]),
    ensures
        !text::within(s, pattern),
{
    law_position_is_first(s, pattern, 0);
    assert forall|i: int| 0 <= i implies !text::occurs_at(s, pattern, i) by {
        if text::occurs_at(s, pattern, i) {
            assert(s.subrange(i, i + pattern.len())[k] == s[i + k]);
            assert(s.contains(s[i + k]));
        }
    }
}

proof fn lemma_marked(front: Seq<char>, mark: Seq<char>, value: Seq<char>)
    requires
        mark.len() > 0,
        !front.contains(mark[0]),
    ensures
        text::position(front + mark + value, mark, 0) == Some(front.len() as int),
{
    let whole = front + mark + value;
    let at = front.len() as int;
    assert(whole.subrange(at, at + mark.len()) =~= mark);
    assert(text::occurs_at(whole, mark, at));
    law_position_is_first(whole, mark, 0);
    match text::position(whole, mark, 0) {
        Some(i) => {
            if i < at {
                assert(whole.subrange(i, i + mark.len())[0] == whole[i]);
                assert(front.contains(front[i]));
            } else if i > at {
                assert(!text::occurs_at(whole, mark, at));
            }
        },
        None => {
            assert(!text::occurs_at(whole, mark, at));
        },
    }
}

/// Where `mark` stands behind `front`, which does not hold its first character,
/// and not in `value`, the second piece is `value`.
proof fn lemma_second_piece(front: Seq<char>, mark: Seq<char>, value: Seq<char>)
    requires
        mark.len() > 0,
        !front.contains(mark[0]),
        !text::within(value, mark),
    ensures
        text::within(front + mark + value, mark),
        text::second_piece(front + mark + value, mark) == Some(value),
{
    lemma_marked(front, mark, value);
    assert((front + mark + value).skip(
        (front.len() + mark.len()) as int,
    ) =~= value);
}

proof fn lemma_within_longer(s: Seq<char>, pattern: Seq<char>, longer: Seq<char>)
    requires
        pattern.len() <= longer.len(),
        longer.take(pattern.len() as int) == pattern,
        text::within(s, longer),
    ensures
        text::within(s, pattern),
{
    law_position_is_first(s, longer, 0);
    law_position_is_first(s, pattern, 0);
    let i = text::position(s, longer, 0)->0;
    assert(s.subrange(i, i + pattern.len()) =~= s.subrange(i, i + longer.len()).take(
        pattern.len() as int,
    ));
    assert(text::occurs_at(s, pattern, i));
}

proof fn lemma_split_line(line: Seq<char>, rest: Seq<char>)
    requires
        !line.contains('\n'),
    ensures
        text::split(line.push('\n') + rest, '\n') == seq![line] + text::split(rest, '\n'),
{
    law_split_at_separator(line, '\n', rest);
    law_split_without_separator(line, '\n');
}

proof fn lemma_word_has_no(w: Seq<char>, c: char)
    requires
        is_word(w),
        text::white_space(c),
    ensures
        !w.contains(c),
{
    if w.contains(c) {
        let k = w.index_of(c);
        assert(w[k] == c);
    }
}

proof fn lemma_line_of(front: Seq<char>, w: Seq<char>)
    requires
        front.len() > 0,
        !text::white_space(front[0]),
        !front.contains('\n'),
        is_word(w),
    ensures
        text::trim(front + w) == front + w,
        !(front + w).contains('\n'),
{
    let line = front + w;
    assert(line.last() == w[w.len() - 1]);
    wording::law_trim_keeps(line);
    lemma_word_has_no(w, '\n');
    if line.contains('\n') {
        let k = line.index_of('\n');
        if k < front.len() {
            assert(front.contains(front[k]));
        } else {
            assert(w.contains(w[k - front.len()]));
        }
    }
}

/// The answer of a release of runc to `--version`.
pub open spec fn version_report(v: Seq<char>, commit: Seq<char>, spec: Seq<char>) -> Seq<char> {
    "runc version "@ + v + "\ncommit: "@ + commit + "\nspec: "@ + spec + "\n"@
}

/// The words that runc reports for its version, its commit and the version of
/// the specification are those that are read, unless the commit or the version
/// of the specification holds a text that marks another line.
pub proof fn law_version_report_is_read(v: Seq<char>, commit: Seq<char>, spec: Seq<char>)
    requires
        is_word(v),
        is_word(commit),
        is_word(spec),
        !text::within(commit, "version"@),
        !text::within(commit, "spec"@),
        !text::within(spec, "version"@),
    ensures
        reply::version_said(version_report(v, commit, spec)) == Ok::<
            reply::VersionView,
            ErrorView,
        >(
            reply::VersionView {
                runc_version: Some(v),
                spec_version: Some(spec),
                commit: Some(commit),
            },
        ),
{
    reveal_strlit("runc version ");
    reveal_strlit("commit: ");
    reveal_strlit("spec: ");
    reveal_strlit("version ");
    reveal_strlit("version");
    reveal_strlit("spec");
    reveal_strlit("commit");
    reveal_strlit(": ");
    let first = "runc version "@ + v;
    let second = "commit: "@ + commit;
    let third = "spec: "@ + spec;
    lemma_line_of("runc version "@, v);
    lemma_line_of("commit: "@, commit);
    lemma_line_of("spec: "@, spec);
    let tail = third.push('\n') + Seq::empty();
    lemma_split_line(third, Seq::empty());
    lemma_split_line(second, tail);
    lemma_split_line(first, second.push('\n') + tail);
    let output = version_report(v, commit, spec);
    assert(output =~= first.push('\n') + (second.push('\n') + tail)) by {
        reveal_strlit("\ncommit: ");
        reveal_strlit("\nspec: ");
        reveal_strlit("\n");
    }
    let lines = text::split(output, '\n');
    assert(lines =~= seq![first, second, third, Seq::<char>::empty()]);
    // The line of the version
    lemma_word_has_no(v, ' ');
    lemma_not_within_without(v, "version "@, 7);
    assert(!"runc "@.contains('v')) by {
        reveal_strlit("runc ");
    }
    assert(first =~= "runc "@ + "version "@ + v) by {
        reveal_strlit("runc ");
    }
    lemma_second_piece("runc "@, "version "@, v);
    assert("version "@.take(7) =~= "version"@);
    lemma_within_longer(first, "version"@, "version "@);
    // The line of the commit
    lemma_word_has_no(commit, ' ');
    lemma_not_within_without(commit, ": "@, 1);
    lemma_not_within("commit: "@, commit, "version"@);
    lemma_not_within("commit: "@, commit, "spec"@);
    assert(second =~= "commit"@ + ": "@ + commit);
    lemma_second_piece("commit"@, ": "@, commit);
    assert(text::within(second, "commit"@)) by {
        law_position_is_first(second, "commit"@, 0);
        assert(second.subrange(0, 6) =~= "commit"@);
        assert(text::occurs_at(second, "commit"@, 0));
    }
    // The line of the specification
    lemma_word_has_no(spec, ' ');
    lemma_not_within_without(spec, ": "@, 1);
    lemma_not_within("spec: "@, spec, "version"@);
    assert(third =~= "spec"@ + ": "@ + spec);
    lemma_second_piece("spec"@, ": "@, spec);
    assert(text::within(third, "spec"@)) by {
        law_position_is_first(third, "spec"@, 0);
        assert(third.subrange(0, 4) =~= "spec"@);
        assert(text::occurs_at(third, "spec"@, 0));
    }
    let three = lines.take(3);
    assert(three.drop_last() =~= seq![first, second]);
    assert(three.drop_last().drop_last() =~= seq![first]);
    assert(three.drop_last().drop_last().drop_last() =~= Seq::empty());
    reveal_with_fuel(reply::version_lines, 4);
}

} // verus!
