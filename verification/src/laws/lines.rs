//! What holds of command lines: the options, the commands, and the paths that
//! the host is asked for.

use crate::args;
use crate::args::{Arg, ArgView, Args, CreateOpts, DeleteOpts, ExecOpts, KillOpts};
use crate::client;
use crate::client::{RuncConfiguration, RuncLogFormat, RuncView};
use crate::command::Wanted;
use crate::error::{ErrorView, IoErrorKind, IoErrorView};
use crate::invocation;
use crate::invocation::InvocationView;
use crate::path;
use crate::path::HostPath;
use crate::task::StageView;
use crate::time;
use vstd::prelude::*;

verus! {

/// The arguments where the condition holds, and none where it does not.
pub open spec fn when(on: bool, words: Seq<ArgView>) -> Seq<ArgView> {
    if on {
        words
    } else {
        Seq::empty()
    }
}

/// A path and its option, as text.
pub open spec fn with_path(name: Seq<char>, p: Option<HostPath>) -> Seq<ArgView> {
    when(p is Some, seq![ArgView::Text(name), ArgView::Text(path::lossy(p->0.bytes@))])
}

/// A path and its option, in the canonical form that the host is asked for.
pub open spec fn with_canonical(name: Seq<char>, p: Option<HostPath>) -> Seq<ArgView> {
    when(p is Some, seq![ArgView::Text(name), ArgView::Canonical(p->0.bytes@)])
}

/// What a list of arguments says is what each of them says.
pub proof fn law_arg_views(list: Seq<Arg>)
    ensures
        args::arg_views(list).len() == list.len(),
        forall|i: int|
            0 <= i < list.len() ==> #[trigger] args::arg_views(list)[i] == match list[i] {
                Arg::Text(text) => ArgView::Text(text@),
                Arg::Canonical(p) => ArgView::Canonical(p.bytes@),
            },
{
}

/// Each of the options for creating a container adds its own words, in a fixed
/// order, and none depends on another.
pub proof fn law_create_options(o: CreateOpts)
    ensures
        o.arguments() == with_path("--pid-file"@, o.pid_file) + with_canonical(
            "--console-socket"@,
            o.console_socket,
        ) + when(o.no_pivot, seq![ArgView::Text("--no-pivot"@)]) + when(
            o.no_new_keyring,
            seq![ArgView::Text("--no-new-keyring"@)],
        ) + when(o.detach, seq![ArgView::Text("--detach"@)]),
{
    assert(o.arguments() =~= with_path("--pid-file"@, o.pid_file) + with_canonical(
        "--console-socket"@,
        o.console_socket,
    ) + when(o.no_pivot, seq![ArgView::Text("--no-pivot"@)]) + when(
        o.no_new_keyring,
        seq![ArgView::Text("--no-new-keyring"@)],
    ) + when(o.detach, seq![ArgView::Text("--detach"@)]));
}

/// To ask for detaching puts `--detach` behind the other options, whichever they
/// are. To ask for no new keyring, or for no pivot, puts its word in front of
/// those that follow it.
pub proof fn law_create_flags(o: CreateOpts)
    ensures
        (CreateOpts { detach: true, ..o }).arguments() == (CreateOpts {
            detach: false,
            ..o
        }).arguments().push(ArgView::Text("--detach"@)),
        ({
            let bare = CreateOpts { no_new_keyring: false, detach: false, ..o };
            (CreateOpts { no_new_keyring: true, ..bare }).arguments() == bare.arguments().push(
                ArgView::Text("--no-new-keyring"@),
            )
        }),
        ({
            let bare = CreateOpts {
                no_pivot: false,
                no_new_keyring: false,
                detach: false,
                ..o
            };
            (CreateOpts { no_pivot: true, ..bare }).arguments() == bare.arguments().push(
                ArgView::Text("--no-pivot"@),
            )
        }),
{
    let on = CreateOpts { detach: true, ..o };
    let off = CreateOpts { detach: false, ..o };
    assert(on.arguments() =~= off.arguments().push(ArgView::Text("--detach"@)));
    let bare = CreateOpts { no_new_keyring: false, detach: false, ..o };
    let ring = CreateOpts { no_new_keyring: true, ..bare };
    assert(ring.arguments() =~= bare.arguments().push(ArgView::Text("--no-new-keyring"@)));
    let barest = CreateOpts { no_pivot: false, ..bare };
    let pivot = CreateOpts { no_pivot: true, ..barest };
    assert(pivot.arguments() =~= barest.arguments().push(ArgView::Text("--no-pivot"@)));
}

/// Each of the options for executing a process adds its own words, in a fixed
/// order, and none depends on another.
pub proof fn law_exec_options(o: ExecOpts)
    ensures
        o.arguments() == with_canonical("--console-socket"@, o.console_socket) + when(
            o.detach,
            seq![ArgView::Text("--detach"@)],
        ) + with_path("--pid-file"@, o.pid_file),
{
    assert(o.arguments() =~= with_canonical("--console-socket"@, o.console_socket) + when(
        o.detach,
        seq![ArgView::Text("--detach"@)],
    ) + with_path("--pid-file"@, o.pid_file));
}

/// Deletion and killing have one word each, which is there just where it was
/// asked for.
pub proof fn law_single_options(d: DeleteOpts, k: KillOpts)
    ensures
        d.force ==> d.arguments() == seq![ArgView::Text("--force"@)],
        !d.force ==> d.arguments() == Seq::<ArgView>::empty(),
        k.all ==> k.arguments() == seq![ArgView::Text("--all"@)],
        !k.all ==> k.arguments() == Seq::<ArgView>::empty(),
{
}

/// Options that are not given add nothing, and those that are add their own.
pub proof fn law_optional_arguments<A: Args>(opts: &A)
    ensures
        args::optional_arguments::<A>(None) == Seq::<ArgView>::empty(),
        args::optional_arguments(Some(opts)) == opts.arguments(),
{
}

/// Words stand in a command line as they are, one argument each.
pub proof fn law_said(words: Seq<Seq<char>>)
    ensures
        client::said(words).len() == words.len(),
        forall|i: int|
            0 <= i < words.len() ==> #[trigger] client::said(words)[i] == ArgView::Text(words[i]),
{
}

/// Each of the options of the client adds its own words, in a fixed order, and
/// none depends on another.
pub proof fn law_client_options(c: RuncView)
    ensures
        c.options() == when(
            c.root is Some,
            seq![ArgView::Text("--root"@), ArgView::Canonical(c.root->0)],
        ) + when(c.debug, seq![ArgView::Text("--debug"@)]) + when(
            c.log is Some,
            seq![ArgView::Text("--log"@), ArgView::Text(path::lossy(c.log->0))],
        ) + (match c.log_format {
            Some(RuncLogFormat::Json) => seq![
                ArgView::Text("--log-format"@),
                ArgView::Text("json"@),
            ],
            Some(RuncLogFormat::Text) => seq![
                ArgView::Text("--log-format"@),
                ArgView::Text("text"@),
            ],
            None => Seq::empty(),
        }) + when(c.systemd_cgroup, seq![ArgView::Text("--systemd-cgroup"@)]) + (match c.rootless {
            Some(true) => seq![ArgView::Text("--rootless=true"@)],
            Some(false) => seq![ArgView::Text("--rootless=false"@)],
            None => Seq::empty(),
        }),
{
    lemma_log_format(c.log_format);
    lemma_rootless(c.rootless);
}

proof fn lemma_log_format(format: Option<RuncLogFormat>)
    ensures
        client::said(
            match format {
                Some(format) => seq!["--log-format"@, client::format_name(format)],
                None => Seq::empty(),
            },
        ) == match format {
            Some(RuncLogFormat::Json) => seq![
                ArgView::Text("--log-format"@),
                ArgView::Text("json"@),
            ],
            Some(RuncLogFormat::Text) => seq![
                ArgView::Text("--log-format"@),
                ArgView::Text("text"@),
            ],
            None => Seq::empty(),
        },
{
    assert(client::said(seq!["--log-format"@, "json"@]) =~= seq![
        ArgView::Text("--log-format"@),
        ArgView::Text("json"@),
    ]);
    assert(client::said(seq!["--log-format"@, "text"@]) =~= seq![
        ArgView::Text("--log-format"@),
        ArgView::Text("text"@),
    ]);
    assert(client::said(Seq::empty()) =~= Seq::empty());
}

proof fn lemma_rootless(rootless: Option<bool>)
    ensures
        client::said(
            match rootless {
                Some(rootless) => seq!["--rootless="@ + if rootless { "true"@ } else { "false"@ }],
                None => Seq::empty(),
            },
        ) == match rootless {
            Some(true) => seq![ArgView::Text("--rootless=true"@)],
            Some(false) => seq![ArgView::Text("--rootless=false"@)],
            None => Seq::empty(),
        },
{
    assert("--rootless="@ + "true"@ =~= "--rootless=true"@) by {
        reveal_strlit("--rootless=");
        reveal_strlit("true");
        reveal_strlit("--rootless=true");
    }
    assert("--rootless="@ + "false"@ =~= "--rootless=false"@) by {
        reveal_strlit("--rootless=");
        reveal_strlit("false");
        reveal_strlit("--rootless=false");
    }
    assert(client::said(seq!["--rootless=true"@]) =~= seq![ArgView::Text("--rootless=true"@)]);
    assert(client::said(seq!["--rootless=false"@]) =~= seq![ArgView::Text("--rootless=false"@)]);
    assert(client::said(Seq::empty()) =~= Seq::empty());
}

/// A client is what its configuration says, with the binary that was named or
/// found, and a timeout of five seconds where none was given.
pub proof fn law_configured(config: RuncConfiguration, command: Seq<u8>)
    ensures
        ({
            let c = client::configured(config, command);
            &&& c.command == command
            &&& config.timeout is Some ==> c.timeout == config.timeout->0@
            &&& config.timeout is None ==> c.timeout.secs == 5 && c.timeout.nanos == 0
            &&& config.root is None ==> c.root is None
            &&& config.root is Some ==> c.root == Some(config.root->0.bytes@)
            &&& c.debug == config.debug
            &&& config.log is None ==> c.log is None
            &&& config.log is Some ==> c.log == Some(config.log->0.bytes@)
            &&& c.log_format == config.log_format
            &&& c.systemd_cgroup == config.systemd_cgroup
            &&& c.rootless == config.rootless
            &&& c.should_cleanup == config.should_cleanup
        }),
{
}

/// Each call runs the binary of the client, with its options in front and under
/// its timeout. It begins with the run where it needs no file, and with the
/// encoding of its specification where it needs one.
pub proof fn law_calls_of_a_client(
    c: RuncView,
    args: Seq<ArgView>,
    combined_output: bool,
    file: Seq<char>,
)
    ensures
        ({
            let plain = c.call(args, combined_output);
            let status = c.status_call(args);
            let with = c.call_with(args, file);
            &&& plain.invocation.program == c.command
            &&& plain.invocation.globals == c.options()
            &&& plain.invocation.args == args
            &&& plain.invocation.combined_output == combined_output
            &&& plain.invocation.timeout == Some(c.timeout)
            &&& plain.wanted == Wanted::Output
            &&& plain.stage == (StageView::Launch { temporary: None })
            &&& status.invocation == c.call(args, true).invocation
            &&& status.wanted == Wanted::Status
            &&& status.stage == (StageView::Launch { temporary: None })
            &&& with.invocation == c.call(args, true).invocation
            &&& with.wanted == Wanted::Output
            &&& with.stage == (StageView::Encode { file })
            &&& c.run_of(args, combined_output) == plain.invocation
        }),
{
}

/// A container is created or run with the command, its options, the bundle and
/// its id, in this order.
pub proof fn law_bundled(
    command: Seq<char>,
    id: Seq<char>,
    bundle: Seq<u8>,
    opts: Option<&CreateOpts>,
)
    ensures
        client::bundled(command, id, bundle, opts) == seq![ArgView::Text(command)] + (match opts {
            Some(opts) => opts.arguments(),
            None => Seq::empty(),
        }) + seq![ArgView::Text("--bundle"@), ArgView::Canonical(bundle), ArgView::Text(id)],
{
    assert(client::said(seq![command]) =~= seq![ArgView::Text(command)]);
}

/// A process is executed, and a container updated, with the file that describes
/// it, the options and the id, in this order.
pub proof fn law_lines_with_file(file: Seq<char>, id: Seq<char>, opts: Option<&ExecOpts>)
    ensures
        client::exec_line(file, id, opts) == seq![
            ArgView::Text("exec"@),
            ArgView::Text("--process"@),
            ArgView::Text(file),
        ] + (match opts {
            Some(opts) => opts.arguments(),
            None => Seq::empty(),
        }) + seq![ArgView::Text(id)],
        client::update_line(file, id) == seq![
            ArgView::Text("update"@),
            ArgView::Text("--resources"@),
            ArgView::Text(file),
            ArgView::Text(id),
        ],
{
    assert(client::said(seq!["exec"@, "--process"@, file]) =~= seq![
        ArgView::Text("exec"@),
        ArgView::Text("--process"@),
        ArgView::Text(file),
    ]);
    assert(client::said(seq![id]) =~= seq![ArgView::Text(id)]);
    assert(client::update_line(file, id) =~= seq![
        ArgView::Text("update"@),
        ArgView::Text("--resources"@),
        ArgView::Text(file),
        ArgView::Text(id),
    ]);
}

/// A container is run with the command `run` and the options that were given,
/// whether runc is to detach or not. What is wanted of the call is the exit
/// status, unless runc is to detach.
pub proof fn law_run_call(c: RuncView, id: Seq<char>, bundle: Seq<u8>, opts: Option<&CreateOpts>)
    ensures
        ({
            let t = c.run_call(id, bundle, opts);
            &&& t.invocation.program == c.command
            &&& t.invocation.globals == c.options()
            &&& t.invocation.args == seq![ArgView::Text("run"@)] + (match opts {
                Some(opts) => opts.arguments(),
                None => Seq::empty(),
            }) + seq![ArgView::Text("--bundle"@), ArgView::Canonical(bundle), ArgView::Text(id)]
            &&& t.invocation.combined_output
            &&& t.invocation.timeout == Some(c.timeout)
            &&& t.stage == (StageView::Launch { temporary: None })
            &&& (t.wanted == Wanted::Output <==> opts is Some && opts->0.detach)
        }),
{
    law_bundled("run"@, id, bundle, opts);
}

/// A temporary file stands in its directory, under a name that ends in what sets
/// it apart. Without a directory there is an error.
pub proof fn law_temporary(dir: Seq<u8>, unique: Seq<char>)
    ensures
        client::temporary(dir, unique) == path::lossy(dir) + "/runc-process-"@ + unique,
        client::no_temporary() == ErrorView::IoError(
            IoErrorView {
                kind: IoErrorKind::NotFound,
                os_code: None,
                message: "unable to create temporary spec file"@,
            },
        ),
{
}

/// What sets a temporary file apart is 36 characters long: hyphens behind the
/// 8th, 12th, 16th and 20th digit, and lower case hexadecimal digits otherwise,
/// with a 4 for the version. It brings no separator into the path.
pub proof fn law_random_name(s: Seq<char>, i: int)
    requires
        client::random_uuid_text(s),
        0 <= i < s.len(),
    ensures
        s.len() == 36,
        s[i] == '-' <==> i == 8 || i == 13 || i == 18 || i == 23,
        s[i] != '-' ==> '0' <= s[i] <= '9' || 'a' <= s[i] <= 'f',
        s[14] == '4',
        s[i] != '/',
{
}

/// The host is asked for the first path of the command that is not known yet,
/// and, when all of those are known, for the first of the options. It is asked
/// for nothing just where every argument is known.
pub proof fn law_pending(inv: InvocationView, i: int)
    ensures
        0 <= i < inv.args.len() && inv.args[i] is Canonical && (forall|j: int|
            0 <= j < i ==> inv.args[j] is Text) ==> inv.pending() == Some(
            inv.args[i]->Canonical_0,
        ),
        0 <= i < inv.globals.len() && inv.globals[i] is Canonical && (forall|j: int|
            0 <= j < i ==> inv.globals[j] is Text) && (forall|j: int|
            0 <= j < inv.args.len() ==> inv.args[j] is Text) ==> inv.pending() == Some(
            inv.globals[i]->Canonical_0,
        ),
        inv.pending() is None <==> (forall|j: int|
            0 <= j < inv.args.len() ==> inv.args[j] is Text) && (forall|j: int|
            0 <= j < inv.globals.len() ==> inv.globals[j] is Text),
{
    invocation::lemma_first_open(inv.args, 0);
    invocation::lemma_first_open(inv.globals, 0);
}

/// The answer of the host takes the place of the argument that was asked for, as
/// text, and everything else stays.
pub proof fn law_answered(inv: InvocationView, i: int, bytes: Seq<u8>)
    ensures
        0 <= i < inv.args.len() && inv.args[i] is Canonical && (forall|j: int|
            0 <= j < i ==> inv.args[j] is Text) ==> inv.answered(bytes) == (InvocationView {
            args: inv.args.update(i, ArgView::Text(path::lossy(bytes))),
            ..inv
        }),
        0 <= i < inv.globals.len() && inv.globals[i] is Canonical && (forall|j: int|
            0 <= j < i ==> inv.globals[j] is Text) && (forall|j: int|
            0 <= j < inv.args.len() ==> inv.args[j] is Text) ==> inv.answered(bytes)
            == (InvocationView {
            globals: inv.globals.update(i, ArgView::Text(path::lossy(bytes))),
            ..inv
        }),
        (forall|j: int| 0 <= j < inv.args.len() ==> inv.args[j] is Text) && (forall|j: int|
            0 <= j < inv.globals.len() ==> inv.globals[j] is Text) ==> inv.answered(bytes) == inv,
{
    invocation::lemma_first_open(inv.args, 0);
    invocation::lemma_first_open(inv.globals, 0);
}

/// The command line is there just where every argument is known. It has the
/// words of the options and then those of the command, each as it is.
pub proof fn law_argv(inv: InvocationView)
    ensures
        inv.argv() is Some <==> (forall|j: int| 0 <= j < inv.args.len() ==> inv.args[j] is Text)
            && (forall|j: int| 0 <= j < inv.globals.len() ==> inv.globals[j] is Text),
        inv.argv() matches Some(words) ==> {
            &&& words.len() == inv.globals.len() + inv.args.len()
            &&& forall|i: int|
                0 <= i < inv.globals.len() ==> ArgView::Text(#[trigger] words[i]) == inv.globals[i]
            &&& forall|i: int|
                0 <= i < inv.args.len() ==> ArgView::Text(
                    #[trigger] words[inv.globals.len() + i],
                ) == inv.args[i]
        },
{
    invocation::lemma_first_open(inv.args, 0);
    invocation::lemma_first_open(inv.globals, 0);
}

/// On a host each path becomes the text of its canonical form, and each text
/// stays as it is.
pub proof fn law_on_host(inv: InvocationView, canonical: spec_fn(Seq<u8>) -> HostPath, i: int)
    ensures
        ({
            let host = inv.on_host(canonical);
            &&& host.args.len() == inv.args.len()
            &&& host.globals.len() == inv.globals.len()
            &&& host.program == inv.program
            &&& host.combined_output == inv.combined_output
            &&& host.timeout == inv.timeout
            &&& 0 <= i < inv.args.len() ==> host.args[i] == match inv.args[i] {
                ArgView::Text(text) => ArgView::Text(text),
                ArgView::Canonical(bytes) => ArgView::Text(path::lossy(canonical(bytes).bytes@)),
            }
            &&& 0 <= i < inv.globals.len() ==> host.globals[i] == match inv.globals[i] {
                ArgView::Text(text) => ArgView::Text(text),
                ArgView::Canonical(bytes) => ArgView::Text(path::lossy(canonical(bytes).bytes@)),
            }
        }),
{
}

/// The span of a number of milliseconds lasts just as long, with fewer
/// nanoseconds than make a second.
pub proof fn law_millis(ms: u64)
    ensures
        time::millis(ms).secs * 1_000_000_000 + time::millis(ms).nanos == ms * 1_000_000,
        time::millis(ms).nanos < 1_000_000_000,
{
}

} // verus!
