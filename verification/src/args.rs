//! Command lines, as far as they can be written without asking the host.

use crate::path;
use crate::path::HostPath;
use vstd::prelude::*;

verus! {

/// One argument of a command line.
#[derive(Debug, Clone, PartialEq, Eq)]
pub enum Arg {
    /// The argument itself
    Text(String),
    /// The canonical form of this path, which only the host can find
    Canonical(HostPath),
}

#[verifier::ext_equal]
pub enum ArgView {
    Text(Seq<char>),
    Canonical(Seq<u8>),
}

impl View for Arg {
    type V = ArgView;

    open spec fn view(&self) -> ArgView {
        match *self {
            Arg::Text(text) => ArgView::Text(text@),
            Arg::Canonical(path) => ArgView::Canonical(path@),
        }
    }
}

/// What a list of arguments says.
pub open spec fn arg_views(args: Seq<Arg>) -> Seq<ArgView> {
    args.map_values(|a: Arg| a@)
}

/// A single argument that is there or not.
pub open spec fn flag(on: bool, name: Seq<char>) -> Seq<ArgView> {
    if on {
        seq![ArgView::Text(name)]
    } else {
        Seq::empty()
    }
}

/// A path for runc to use as it is.
pub open spec fn plain_path(name: Seq<char>, value: Option<Seq<u8>>) -> Seq<ArgView> {
    match value {
        Some(bytes) => seq![ArgView::Text(name), ArgView::Text(path::lossy(bytes))],
        None => Seq::empty(),
    }
}

/// A path that runc is given in its canonical form.
pub open spec fn canonical_path(name: Seq<char>, value: Option<Seq<u8>>) -> Seq<ArgView> {
    match value {
        Some(bytes) => seq![ArgView::Text(name), ArgView::Canonical(bytes)],
        None => Seq::empty(),
    }
}

pub(crate) fn push_text(args: &mut Vec<Arg>, word: &str)
    ensures
        arg_views(final(args)@) == arg_views(old(args)@).push(ArgView::Text(word@)),
{
    args.push(Arg::Text(word.to_owned()));
    assert(arg_views(args@) =~= arg_views(old(args)@).push(ArgView::Text(word@)));
}

pub(crate) fn push_flag(args: &mut Vec<Arg>, on: bool, name: &str)
    ensures
        arg_views(final(args)@) == arg_views(old(args)@) + flag(on, name@),
{
    if on {
        push_text(args, name);
    }
    assert(arg_views(args@) =~= arg_views(old(args)@) + flag(on, name@));
}

pub(crate) fn push_canonical(args: &mut Vec<Arg>, path: &HostPath)
    ensures
        arg_views(final(args)@) == arg_views(old(args)@).push(ArgView::Canonical(path@)),
{
    args.push(Arg::Canonical(path.clone()));
    assert(arg_views(args@) =~= arg_views(old(args)@).push(ArgView::Canonical(path@)));
}

pub(crate) fn push_plain_path(args: &mut Vec<Arg>, name: &str, value: &Option<HostPath>)
    ensures
        arg_views(final(args)@) == arg_views(old(args)@) + plain_path(
            name@,
            path::path_view(*value),
        ),
{
    if let Some(value) = value {
        push_text(args, name);
        push_text(args, value.to_text().as_str());
    }
    assert(arg_views(args@) =~= arg_views(old(args)@) + plain_path(
        name@,
        path::path_view(*value),
    ));
}

pub(crate) fn push_canonical_path(args: &mut Vec<Arg>, name: &str, value: &Option<HostPath>)
    ensures
        arg_views(final(args)@) == arg_views(old(args)@) + canonical_path(
            name@,
            path::path_view(*value),
        ),
{
    if let Some(value) = value {
        push_text(args, name);
        push_canonical(args, value);
    }
    assert(arg_views(args@) =~= arg_views(old(args)@) + canonical_path(
        name@,
        path::path_view(*value),
    ));
}

/// Options that can be written on a command line.
pub trait Args {
    /// The arguments that stand for the options.
    spec fn arguments(&self) -> Seq<ArgView>;

    fn args(&self) -> (r: Vec<Arg>)
        ensures
            arg_views(r@) == self.arguments(),
    ;
}

/// The arguments of options that need not be given.
pub open spec fn optional_arguments<A: Args>(opts: Option<&A>) -> Seq<ArgView> {
    match opts {
        Some(opts) => opts.arguments(),
        None => Seq::empty(),
    }
}

/// Container creation options
#[derive(Debug, Clone)]
pub struct CreateOpts {
    /// Path to where a pid file should be created
    pub pid_file: Option<HostPath>,
    /// Path to a socket which will receive the console file descriptor
    pub console_socket: Option<HostPath>,
    /// Do not use pivot root to jail process inside rootfs
    pub no_pivot: bool,
    /// Do not create a new session keyring for the container
    pub no_new_keyring: bool,
    /// Detach from the container's process (only available for run)
    pub detach: bool,
}

impl Args for CreateOpts {
    open spec fn arguments(&self) -> Seq<ArgView> {
        plain_path("--pid-file"@, path::path_view(self.pid_file)) + canonical_path(
            "--console-socket"@,
            path::path_view(self.console_socket),
        ) + flag(self.no_pivot, "--no-pivot"@) + flag(self.no_new_keyring, "--no-new-keyring"@)
            + flag(self.detach, "--detach"@)
    }

    fn args(&self) -> (r: Vec<Arg>) {
        let mut args: Vec<Arg> = Vec::new();
        assert(arg_views(args@) =~= Seq::empty());
        push_plain_path(&mut args, "--pid-file", &self.pid_file);
        push_canonical_path(&mut args, "--console-socket", &self.console_socket);
        push_flag(&mut args, self.no_pivot, "--no-pivot");
        push_flag(&mut args, self.no_new_keyring, "--no-new-keyring");
        push_flag(&mut args, self.detach, "--detach");
        assert(arg_views(args@) =~= self.arguments());
        args
    }
}

/// Container deletion options
#[derive(Debug, Clone)]
pub struct DeleteOpts {
    /// Forcibly delete the container if it is still running
    pub force: bool,
}

impl Args for DeleteOpts {
    open spec fn arguments(&self) -> Seq<ArgView> {
        flag(self.force, "--force"@)
    }

    fn args(&self) -> (r: Vec<Arg>) {
        let mut args: Vec<Arg> = Vec::new();
        push_flag(&mut args, self.force, "--force");
        assert(arg_views(args@) =~= self.arguments());
        args
    }
}

/// Process execution options
#[derive(Debug, Clone)]
pub struct ExecOpts {
    /// Path to where a pid file should be created
    pub pid_file: Option<HostPath>,
    /// Path to a socket which will receive the console file descriptor
    pub console_socket: Option<HostPath>,
    /// Detach from the container's process
    pub detach: bool,
}

impl Args for ExecOpts {
    open spec fn arguments(&self) -> Seq<ArgView> {
        canonical_path("--console-socket"@, path::path_view(self.console_socket)) + flag(
            self.detach,
            "--detach"@,
        ) + plain_path("--pid-file"@, path::path_view(self.pid_file))
    }

    fn args(&self) -> (r: Vec<Arg>) {
        let mut args: Vec<Arg> = Vec::new();
        push_canonical_path(&mut args, "--console-socket", &self.console_socket);
        push_flag(&mut args, self.detach, "--detach");
        push_plain_path(&mut args, "--pid-file", &self.pid_file);
        assert(arg_views(args@) =~= self.arguments());
        args
    }
}

/// Container killing options
#[derive(Debug, Clone)]
pub struct KillOpts {
    /// Send the signal to all processes inside the container
    pub all: bool,
}

impl Args for KillOpts {
    open spec fn arguments(&self) -> Seq<ArgView> {
        flag(self.all, "--all"@)
    }

    fn args(&self) -> (r: Vec<Arg>) {
        let mut args: Vec<Arg> = Vec::new();
        push_flag(&mut args, self.all, "--all");
        assert(arg_views(args@) =~= self.arguments());
        args
    }
}

} // verus!
