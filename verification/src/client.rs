//! The runc client: its configuration and its commands.

use crate::args;
use crate::args::{Arg, ArgView, Args, CreateOpts, DeleteOpts, ExecOpts, KillOpts};
use crate::command::Wanted;
use crate::error;
use crate::error::{Error, IoErrorKind};
use crate::invocation::{Invocation, InvocationView};
use crate::lookup;
use crate::lookup::RuncLookup;
use crate::path;
use crate::path::HostPath;
use crate::task::{StageView, Task, TaskView};
use crate::text;
use crate::time;
use crate::time::{SpanView, TimeSpan};
use uuid::Uuid;
use vstd::prelude::*;

verus! {

/// Runc logging format
#[derive(Debug, Clone, Copy, PartialEq, Eq, Structural)]
pub enum RuncLogFormat {
    Json,
    Text,
}

/// Runc client configuration
#[derive(Debug, Clone)]
pub struct RuncConfiguration {
    /// Path to a runc binary (optional)
    pub command: Option<HostPath>,
    /// Runc command timeouts
    pub timeout: Option<TimeSpan>,
    /// Path to runc root directory
    pub root: Option<HostPath>,
    /// Enable runc debug logging
    pub debug: bool,
    /// Path to write runc logs
    pub log: Option<HostPath>,
    /// Write runc logs in text or json format
    pub log_format: Option<RuncLogFormat>,
    /// Use systemd cgroups
    pub systemd_cgroup: bool,
    /// Run in rootless mode
    pub rootless: Option<bool>,
    /// Delete the runc binary and root directory after use (TEST USE ONLY)
    pub should_cleanup: bool,
}

impl Default for RuncConfiguration {
    fn default() -> (r: Self)
        ensures
            r.command is None,
            r.timeout is None,
            r.root is None,
            !r.debug,
            r.log is None,
            r.log_format is None,
            !r.systemd_cgroup,
            r.rootless is None,
            !r.should_cleanup,
    {
        RuncConfiguration {
            command: None,
            timeout: None,
            root: None,
            debug: false,
            log: None,
            log_format: None,
            systemd_cgroup: false,
            rootless: None,
            should_cleanup: false,
        }
    }
}

/// Runc client
#[derive(Debug)]
pub struct Runc {
    command: HostPath,
    timeout: TimeSpan,
    root: Option<HostPath>,
    debug: bool,
    log: Option<HostPath>,
    log_format: Option<RuncLogFormat>,
    systemd_cgroup: bool,
    rootless: Option<bool>,
    should_cleanup: bool,
}

#[verifier::ext_equal]
pub struct RuncView {
    pub command: Seq<u8>,
    pub timeout: SpanView,
    pub root: Option<Seq<u8>>,
    pub debug: bool,
    pub log: Option<Seq<u8>>,
    pub log_format: Option<RuncLogFormat>,
    pub systemd_cgroup: bool,
    pub rootless: Option<bool>,
    pub should_cleanup: bool,
}

impl View for Runc {
    type V = RuncView;

    closed spec fn view(&self) -> RuncView {
        RuncView {
            command: self.command@,
            timeout: self.timeout@,
            root: path::path_view(self.root),
            debug: self.debug,
            log: path::path_view(self.log),
            log_format: self.log_format,
            systemd_cgroup: self.systemd_cgroup,
            rootless: self.rootless,
            should_cleanup: self.should_cleanup,
        }
    }
}

/// The client that a configuration makes, with the binary at `command`.
pub open spec fn configured(config: RuncConfiguration, command: Seq<u8>) -> RuncView {
    RuncView {
        command,
        timeout: match config.timeout {
            Some(timeout) => timeout@,
            None => time::millis(5000),
        },
        root: path::path_view(config.root),
        debug: config.debug,
        log: path::path_view(config.log),
        log_format: config.log_format,
        systemd_cgroup: config.systemd_cgroup,
        rootless: config.rootless,
        should_cleanup: config.should_cleanup,
    }
}

/// The name of a log format.
pub open spec fn format_name(format: RuncLogFormat) -> Seq<char> {
    match format {
        RuncLogFormat::Json => "json"@,
        RuncLogFormat::Text => "text"@,
    }
}

/// Words that stand in a command line as they are.
pub open spec fn said(words: Seq<Seq<char>>) -> Seq<ArgView> {
    words.map_values(|w: Seq<char>| ArgView::Text(w))
}

impl RuncView {
    /// The options of the client, which stand in front of each command.
    pub open spec fn options(self) -> Seq<ArgView> {
        args::canonical_path("--root"@, self.root) + args::flag(self.debug, "--debug"@)
            + args::plain_path("--log"@, self.log) + said(
            match self.log_format {
                Some(format) => seq!["--log-format"@, format_name(format)],
                None => Seq::empty(),
            },
        ) + args::flag(self.systemd_cgroup, "--systemd-cgroup"@) + said(
            match self.rootless {
                Some(rootless) => seq!["--rootless="@ + if rootless { "true"@ } else { "false"@ }],
                None => Seq::empty(),
            },
        )
    }

    /// The run of a command for which the client waits.
    pub open spec fn run_of(self, args: Seq<ArgView>, combined_output: bool) -> InvocationView {
        InvocationView {
            program: self.command,
            globals: self.options(),
            args,
            combined_output,
            timeout: Some(self.timeout),
        }
    }

    /// The call of a command that needs no file and gives back its output.
    pub open spec fn call(self, args: Seq<ArgView>, combined_output: bool) -> TaskView {
        TaskView {
            invocation: self.run_of(args, combined_output),
            wanted: Wanted::Output,
            stage: StageView::Launch { temporary: None },
        }
    }

    /// The call of a command that gives back its exit status.
    pub open spec fn status_call(self, args: Seq<ArgView>) -> TaskView {
        TaskView { wanted: Wanted::Status, ..self.call(args, true) }
    }

    /// The call that runs a container in a bundle. It gives back an exit status,
    /// unless runc detaches from the container and does not wait for one.
    pub open spec fn run_call(
        self,
        id: Seq<char>,
        bundle: Seq<u8>,
        opts: Option<&CreateOpts>,
    ) -> TaskView {
        if detaches(opts) {
            self.call(bundled("run"@, id, bundle, opts), true)
        } else {
            self.status_call(bundled("run"@, id, bundle, opts))
        }
    }

    /// The call of a command that reads a specification from `file`.
    pub open spec fn call_with(self, args: Seq<ArgView>, file: Seq<char>) -> TaskView {
        TaskView {
            invocation: self.run_of(args, true),
            wanted: Wanted::Output,
            stage: StageView::Encode { file },
        }
    }
}

/// Whether runc is to detach from the container.
pub open spec fn detaches(opts: Option<&CreateOpts>) -> bool {
    opts matches Some(opts) && opts.detach
}

/// The command line that puts a container into a bundle.
pub open spec fn bundled(
    command: Seq<char>,
    id: Seq<char>,
    bundle: Seq<u8>,
    opts: Option<&CreateOpts>,
) -> Seq<ArgView> {
    said(seq![command]) + args::optional_arguments(opts) + seq![
        ArgView::Text("--bundle"@),
        ArgView::Canonical(bundle),
        ArgView::Text(id),
    ]
}

/// The command line of `exec`, with the process described in `file`.
pub open spec fn exec_line(file: Seq<char>, id: Seq<char>, opts: Option<&ExecOpts>) -> Seq<
    ArgView,
> {
    said(seq!["exec"@, "--process"@, file]) + args::optional_arguments(opts) + said(seq![id])
}

/// The command line of `update`, with the resources described in `file`.
pub open spec fn update_line(file: Seq<char>, id: Seq<char>) -> Seq<ArgView> {
    said(seq!["update"@, "--resources"@, file, id])
}

/// The temporary file in the directory `dir` that the name `unique` sets apart.
pub open spec fn temporary(dir: Seq<u8>, unique: Seq<char>) -> Seq<char> {
    path::lossy(dir) + "/runc-process-"@ + unique
}

/// The error where there is no directory for temporary files.
pub open spec fn no_temporary() -> error::ErrorView {
    error::failure(IoErrorKind::NotFound, "unable to create temporary spec file"@)
}

pub open spec fn lower_hex(c: char) -> bool {
    '0' <= c <= '9' || 'a' <= c <= 'f'
}

/// The text of a random UUID: lower case hexadecimal digits in groups of 8, 4,
/// 4, 4 and 12, among them the version and the variant.
pub open spec fn random_uuid_text(s: Seq<char>) -> bool {
    &&& s.len() == 36
    &&& forall|i: int|
        0 <= i < 36 ==> if i == 8 || i == 13 || i == 18 || i == 23 {
            #[trigger] s[i] == '-'
        } else {
            lower_hex(s[i])
        }
    &&& s[14] == '4'
    &&& s[19] == '8' || s[19] == '9' || s[19] == 'a' || s[19] == 'b'
}

/// `Uuid::new_v4`, in the hyphenated lower case form in which `Uuid` prints.
/// Which UUID it is rests on chance. It panics on a system that has no random
/// bytes to give.
#[verifier::external_body]
fn random_uuid() -> (r: String)
    ensures
        random_uuid_text(r@),
{
    format!("{}", Uuid::new_v4())
}

/// The temporary file in the directory `dir` that the name `unique` sets apart.
pub fn temporary_file(dir: &HostPath, unique: &str) -> (r: String)
    ensures
        r@ == temporary(dir@, unique@),
{
    dir.to_text().concat("/runc-process-").concat(unique)
}

/// A temporary file with a random name, where there is a directory for it.
pub fn new_temporary_file(dir: Option<&HostPath>) -> (r: Result<String, Error>)
    ensures
        match dir {
            Some(dir) => r matches Ok(file) && exists|unique: Seq<char>| #[trigger]
                random_uuid_text(unique) && file@ == temporary(dir@, unique),
            None => r matches Err(e) && e@ == no_temporary(),
        },
{
    match dir {
        Some(dir) => Ok(temporary_file(dir, random_uuid().as_str())),
        None => Err(
            Error::found(IoErrorKind::NotFound, "unable to create temporary spec file"),
        ),
    }
}

impl Args for Runc {
    open spec fn arguments(&self) -> Seq<ArgView> {
        self@.options()
    }

    fn args(&self) -> (r: Vec<Arg>) {
        let mut args: Vec<Arg> = Vec::new();
        args::push_canonical_path(&mut args, "--root", &self.root);
        args::push_flag(&mut args, self.debug, "--debug");
        args::push_plain_path(&mut args, "--log", &self.log);
        if let Some(format) = self.log_format {
            args::push_text(&mut args, "--log-format");
            args::push_text(
                &mut args,
                match format {
                    RuncLogFormat::Json => "json",
                    RuncLogFormat::Text => "text",
                },
            );
        }
        args::push_flag(&mut args, self.systemd_cgroup, "--systemd-cgroup");
        if let Some(rootless) = self.rootless {
            let value = if rootless {
                "true"
            } else {
                "false"
            };
            args::push_text(&mut args, "--rootless=".to_owned().concat(value).as_str());
        }
        assert(args::arg_views(args@) =~= self.arguments());
        args
    }
}

/// A list of words as a command line.
fn line(words: Vec<&str>) -> (r: Vec<Arg>)
    ensures
        args::arg_views(r@) == said(words@.map_values(|w: &str| w@)),
{
    let ghost all = said(words@.map_values(|w: &str| w@));
    let mut r: Vec<Arg> = Vec::new();
    let mut i: usize = 0;
    assert(args::arg_views(r@) =~= all.take(0));
    while i < words.len()
        invariant
            i <= words.len(),
            all == said(words@.map_values(|w: &str| w@)),
            args::arg_views(r@) == all.take(i as int),
        decreases words.len() - i,
    {
        args::push_text(&mut r, words[i]);
        assert(all.take(i + 1) =~= all.take(i as int).push(all[i as int]));
        i += 1;
    }
    assert(all.take(i as int) =~= all);
    r
}

impl Runc {
    /// Create a new runc client from the supplied configuration. `found` is the
    /// binary that the search path of the host has, for a configuration that
    /// names none.
    pub fn new(config: RuncConfiguration, found: Option<HostPath>) -> (r: Result<Self, Error>)
        ensures
            match (config.command, found) {
                (Some(command), _) => r matches Ok(runc) && runc@ == configured(config, command@),
                (None, Some(command)) => r matches Ok(runc) && runc@ == configured(
                    config,
                    command@,
                ),
                (None, None) => r matches Err(e) && e@ == error::failure(
                    IoErrorKind::NotFound,
                    "unable to locate runc binary"@,
                ),
            },
    {
        let command = match config.command {
            Some(command) => command,
            None => match found {
                Some(command) => command,
                None => return Err(
                    Error::found(IoErrorKind::NotFound, "unable to locate runc binary"),
                ),
            },
        };
        let timeout = match config.timeout {
            Some(timeout) => timeout,
            None => TimeSpan::from_millis(5000),
        };
        Ok(
            Runc {
                command,
                timeout,
                root: config.root,
                debug: config.debug,
                log: config.log,
                log_format: config.log_format,
                systemd_cgroup: config.systemd_cgroup,
                rootless: config.rootless,
                should_cleanup: config.should_cleanup,
            },
        )
    }

    /// A search for the runc binary in the directories of `search_path`.
    pub fn runc_binary(search_path: Option<&HostPath>) -> (r: RuncLookup)
        ensures
            r@ == lookup::places(
                match search_path {
                    Some(p) => Some(p@),
                    None => None,
                },
            ),
    {
        RuncLookup::new(search_path)
    }

    /// The options of the client in front of a command.
    fn concat_args(
        &self,
        args: Vec<Arg>,
        combined_output: bool,
        timeout: Option<TimeSpan>,
    ) -> (r: Invocation)
        ensures
            r@ == (InvocationView {
                program: self@.command,
                globals: self@.options(),
                args: args::arg_views(args@),
                combined_output,
                timeout: time::span_view(timeout),
            }),
    {
        Invocation {
            program: self.command.clone(),
            globals: self.args(),
            args,
            combined_output,
            timeout,
        }
    }

    /// The run of a command for whose end the client waits, as long as its
    /// timeout allows.
    fn command(&self, args: Vec<Arg>, combined_output: bool) -> (r: Invocation)
        ensures
            r@ == self@.run_of(args::arg_views(args@), combined_output),
    {
        self.concat_args(args, combined_output, Some(self.timeout))
    }

    /// The run of a command whose output the client reads while it runs.
    fn command_with_streaming_output(&self, args: Vec<Arg>, combined_output: bool) -> (r:
        Invocation)
        ensures
            r@ == (InvocationView {
                timeout: None,
                ..self@.run_of(args::arg_views(args@), combined_output)
            }),
    {
        self.concat_args(args, combined_output, None)
    }

    /// Puts options behind a command.
    fn append_opts<A: Args>(args: &mut Vec<Arg>, opts: Option<&A>)
        ensures
            args::arg_views(final(args)@) == args::arg_views(old(args)@)
                + args::optional_arguments(opts),
    {
        let ghost before = args::arg_views(args@);
        if let Some(opts) = opts {
            let mut more = opts.args();
            let ghost added = more@;
            args.append(&mut more);
            assert(args@ =~= old(args)@ + added);
        }
        assert(args::arg_views(args@) =~= before + args::optional_arguments(opts));
    }

    /// The command line that puts a container into a bundle.
    fn bundle_line(
        command: &str,
        id: &str,
        bundle: &HostPath,
        opts: Option<&CreateOpts>,
    ) -> (r: Vec<Arg>)
        ensures
            args::arg_views(r@) == bundled(command@, id@, bundle@, opts),
    {
        let mut args = line(vec![command]);
        Self::append_opts(&mut args, opts);
        args::push_text(&mut args, "--bundle");
        args::push_canonical(&mut args, bundle);
        args::push_text(&mut args, id);
        assert(args::arg_views(args@) =~= bundled(command@, id@, bundle@, opts));
        args
    }

    /// Create a new container
    pub fn create(&self, id: &str, bundle: &HostPath, opts: Option<&CreateOpts>) -> (r: Task)
        ensures
            r@ == self@.call(bundled("create"@, id@, bundle@, opts), true),
    {
        let args = Self::bundle_line("create", id, bundle, opts);
        Task::plain(self.command(args, true), Wanted::Output)
    }

    /// Delete a container
    pub fn delete(&self, id: &str, opts: Option<&DeleteOpts>) -> (r: Task)
        ensures
            r@ == self@.call(
                said(seq!["delete"@]) + args::optional_arguments(opts) + said(seq![id@]),
                true,
            ),
    {
        let mut args = line(vec!["delete"]);
        Self::append_opts(&mut args, opts);
        args::push_text(&mut args, id);
        assert(args::arg_views(args@) =~= said(seq!["delete"@]) + args::optional_arguments(opts)
            + said(seq![id@]));
        Task::plain(self.command(args, true), Wanted::Output)
    }

    /// The run that reports container notifications, each `interval` the latest
    /// statistics
    pub fn events(&self, id: &str, interval: &TimeSpan) -> (r: Invocation)
        ensures
            r@ == (InvocationView {
                timeout: None,
                ..self@.run_of(
                    said(
                        seq![
                            "events"@,
                            "--interval="@ + text::decimal(interval@.secs as nat) + "s"@,
                            id@,
                        ],
                    ),
                    false,
                )
            }),
    {
        let every = "--interval=".to_owned().concat(
            text::decimal_text(interval.as_secs()).as_str(),
        ).concat("s");
        let args = line(vec!["events", every.as_str(), id]);
        assert(args::arg_views(args@) =~= said(seq!["events"@, every@, id@]));
        self.command_with_streaming_output(args, false)
    }

    /// Execute an additional process inside the container, described in `file`
    pub fn exec_with(&self, id: &str, file: String, opts: Option<&ExecOpts>) -> (r: Task)
        ensures
            r@ == self@.call_with(exec_line(file@, id@, opts), file@),
    {
        let mut args = line(vec!["exec", "--process", file.as_str()]);
        Self::append_opts(&mut args, opts);
        args::push_text(&mut args, id);
        assert(args::arg_views(args@) =~= exec_line(file@, id@, opts));
        Task::with_specification(self.command(args, true), file)
    }

    /// Execute an additional process inside the container, described in a
    /// temporary file below `runtime_dir`
    pub fn exec(
        &self,
        id: &str,
        runtime_dir: Option<&HostPath>,
        opts: Option<&ExecOpts>,
    ) -> (r: Result<Task, Error>)
        ensures
            match runtime_dir {
                Some(dir) => r matches Ok(task) && exists|unique: Seq<char>| #[trigger]
                    random_uuid_text(unique) && task@ == self@.call_with(
                        exec_line(temporary(dir@, unique), id@, opts),
                        temporary(dir@, unique),
                    ),
                None => r matches Err(e) && e@ == no_temporary(),
            },
    {
        match new_temporary_file(runtime_dir) {
            Ok(file) => Ok(self.exec_with(id, file, opts)),
            Err(e) => Err(e),
        }
    }

    /// Send the specified signal to processes inside the container
    pub fn kill(&self, id: &str, sig: i32, opts: Option<&KillOpts>) -> (r: Task)
        ensures
            r@ == self@.call(
                said(seq!["kill"@]) + args::optional_arguments(opts) + said(
                    seq![id@, text::signed_decimal(sig as int)],
                ),
                true,
            ),
    {
        let mut args = line(vec!["kill"]);
        Self::append_opts(&mut args, opts);
        args::push_text(&mut args, id);
        args::push_text(&mut args, text::signed_decimal_text(sig).as_str());
        assert(args::arg_views(args@) =~= said(seq!["kill"@]) + args::optional_arguments(opts)
            + said(seq![id@, text::signed_decimal(sig as int)]));
        Task::plain(self.command(args, true), Wanted::Output)
    }

    /// List all containers associated with this runc instance
    pub fn list(&self) -> (r: Task)
        ensures
            r@ == self@.call(said(seq!["list"@, "--format=json"@]), false),
    {
        let args = line(vec!["list", "--format=json"]);
        assert(args::arg_views(args@) =~= said(seq!["list"@, "--format=json"@]));
        Task::plain(self.command(args, false), Wanted::Output)
    }

    /// Pause a container
    pub fn pause(&self, id: &str) -> (r: Task)
        ensures
            r@ == self@.call(said(seq!["pause"@, id@]), true),
    {
        let args = line(vec!["pause", id]);
        assert(args::arg_views(args@) =~= said(seq!["pause"@, id@]));
        Task::plain(self.command(args, true), Wanted::Output)
    }

    /// List processes inside a container, returning their pids
    pub fn ps(&self, id: &str) -> (r: Task)
        ensures
            r@ == self@.call(said(seq!["ps"@, "--format=json"@, id@]), false),
    {
        let args = line(vec!["ps", "--format=json", id]);
        assert(args::arg_views(args@) =~= said(seq!["ps"@, "--format=json"@, id@]));
        Task::plain(self.command(args, false), Wanted::Output)
    }

    /// Resume a container
    pub fn resume(&self, id: &str) -> (r: Task)
        ensures
            r@ == self@.call(said(seq!["resume"@, id@]), true),
    {
        let args = line(vec!["resume", id]);
        assert(args::arg_views(args@) =~= said(seq!["resume"@, id@]));
        Task::plain(self.command(args, true), Wanted::Output)
    }

    /// Run the create, start, delete lifecycle of the container and return its exit
    /// status. That is the status with which runc ends: that of the container,
    /// where runc did not fail itself. Where runc is to detach, there is none, and
    /// the call succeeds or fails as others do.
    pub fn run(&self, id: &str, bundle: &HostPath, opts: Option<&CreateOpts>) -> (r: Task)
        ensures
            r@ == self@.run_call(id@, bundle@, opts),
    {
        let args = Self::bundle_line("run", id, bundle, opts);
        let detach = match opts {
            Some(opts) => opts.detach,
            None => false,
        };
        let wanted = if detach {
            Wanted::Output
        } else {
            Wanted::Status
        };
        Task::plain(self.command(args, true), wanted)
    }

    /// Start an already created container
    pub fn start(&self, id: &str) -> (r: Task)
        ensures
            r@ == self@.call(said(seq!["start"@, id@]), true),
    {
        let args = line(vec!["start", id]);
        assert(args::arg_views(args@) =~= said(seq!["start"@, id@]));
        Task::plain(self.command(args, true), Wanted::Output)
    }

    /// Return the state of a container
    pub fn state(&self, id: &str) -> (r: Task)
        ensures
            r@ == self@.call(said(seq!["state"@, id@]), true),
    {
        let args = line(vec!["state", id]);
        assert(args::arg_views(args@) =~= said(seq!["state"@, id@]));
        Task::plain(self.command(args, true), Wanted::Output)
    }

    /// Return the latest statistics for a container
    pub fn stats(&self, id: &str) -> (r: Task)
        ensures
            r@ == self@.call(said(seq!["events"@, "--stats"@, id@]), true),
    {
        let args = line(vec!["events", "--stats", id]);
        assert(args::arg_views(args@) =~= said(seq!["events"@, "--stats"@, id@]));
        Task::plain(self.command(args, true), Wanted::Output)
    }

    /// List all processes inside the container, returning the full ps data
    pub fn top(&self, id: &str, ps_options: Option<&str>) -> (r: Task)
        ensures
            r@ == self@.call(
                said(
                    seq!["ps"@, "--format"@, "table"@, id@] + match ps_options {
                        Some(options) => seq![options@],
                        None => Seq::empty(),
                    },
                ),
                false,
            ),
    {
        let mut args = line(vec!["ps", "--format", "table", id]);
        assert(args::arg_views(args@) =~= said(seq!["ps"@, "--format"@, "table"@, id@]));
        if let Some(options) = ps_options {
            args::push_text(&mut args, options);
            assert(args::arg_views(args@) =~= said(
                seq!["ps"@, "--format"@, "table"@, id@] + seq![options@],
            ));
        } else {
            assert(seq!["ps"@, "--format"@, "table"@, id@] + Seq::empty() =~= seq![
                "ps"@,
                "--format"@,
                "table"@,
                id@,
            ]);
        }
        Task::plain(self.command(args, false), Wanted::Output)
    }

    /// Update a container with the resources described in `file`
    pub fn update_with(&self, id: &str, file: String) -> (r: Task)
        ensures
            r@ == self@.call_with(update_line(file@, id@), file@),
    {
        let args = line(vec!["update", "--resources", file.as_str(), id]);
        assert(args::arg_views(args@) =~= update_line(file@, id@));
        Task::with_specification(self.command(args, true), file)
    }

    /// Update a container with the resources described in a temporary file
    /// below `runtime_dir`
    pub fn update(&self, id: &str, runtime_dir: Option<&HostPath>) -> (r: Result<Task, Error>)
        ensures
            match runtime_dir {
                Some(dir) => r matches Ok(task) && exists|unique: Seq<char>| #[trigger]
                    random_uuid_text(unique) && task@ == self@.call_with(
                        update_line(temporary(dir@, unique), id@),
                        temporary(dir@, unique),
                    ),
                None => r matches Err(e) && e@ == no_temporary(),
            },
    {
        match new_temporary_file(runtime_dir) {
            Ok(file) => Ok(self.update_with(id, file)),
            Err(e) => Err(e),
        }
    }

    /// Return the version of runc
    pub fn version(&self) -> (r: Task)
        ensures
            r@ == self@.call(said(seq!["--version"@]), false),
    {
        let args = line(vec!["--version"]);
        assert(args::arg_views(args@) =~= said(seq!["--version"@]));
        Task::plain(self.command(args, false), Wanted::Output)
    }

    /// Whether something is to be removed when the client is done: first the
    /// root directory, and then the binary
    pub fn should_cleanup(&self) -> (r: bool)
        ensures
            r == self@.should_cleanup,
    {
        self.should_cleanup
    }

    /// The root directory, where it is to be removed with all that is in it
    pub fn cleanup_root(&self) -> (r: Option<HostPath>)
        ensures
            path::path_view(r) == if self@.should_cleanup {
                self@.root
            } else {
                None
            },
    {
        if !self.should_cleanup {
            return None;
        }
        match &self.root {
            Some(root) => Some(root.clone()),
            None => None,
        }
    }

    /// The binary, where it is to be removed. `system` is the one that the search
    /// path of the host has, which stays.
    pub fn cleanup_binary(&self, system: Option<&HostPath>) -> (r: Option<HostPath>)
        ensures
            path::path_view(r) == if self@.should_cleanup && !(system matches Some(p)
                && path::same_path(p@, self@.command)) {
                Some(self@.command)
            } else {
                None
            },
    {
        let keep = match system {
            Some(system) => system.same(&self.command),
            None => false,
        };
        if self.should_cleanup && !keep {
            Some(self.command.clone())
        } else {
            None
        }
    }
}

} // verus!
