//! What the answers of runc say.

use crate::error;
use crate::error::{Error, ErrorView, IoErrorKind};
use crate::events::{Event, Stats};
use crate::text;
use serde_json::Error as JsonFault;
use std::collections::HashMap;
use vstd::hash_map::StringHashMap;
use vstd::prelude::*;

verus! {

/// Results of top command
pub type TopResults = Vec<StringHashMap<String>>;

/// A moment, in seconds since the start of 1970 in UTC, and nanoseconds.
#[derive(Debug, Clone, Copy, PartialEq, Eq, Structural)]
pub struct Timestamp {
    pub secs: i64,
    pub nanos: u32,
}

/// Runc container
#[derive(Debug)]
pub struct Container {
    /// Container id
    pub id: Option<String>,
    /// Process id
    pub pid: Option<usize>,
    /// Current status
    pub status: Option<String>,
    /// OCI bundle path
    pub bundle: Option<String>,
    /// Root filesystem path
    pub rootfs: Option<String>,
    /// Creation time
    pub created: Option<Timestamp>,
    /// Annotations
    pub annotations: Option<HashMap<String, String>>,
}

/// Runc version information
#[derive(Debug, Clone)]
pub struct Version {
    /// Runc version
    pub runc_version: Option<String>,
    /// OCI specification version
    pub spec_version: Option<String>,
    /// Commit hash (non-release builds)
    pub commit: Option<String>,
}

#[verifier::ext_equal]
pub struct VersionView {
    pub runc_version: Option<Seq<char>>,
    pub spec_version: Option<Seq<char>>,
    pub commit: Option<Seq<char>>,
}

impl View for Version {
    type V = VersionView;

    open spec fn view(&self) -> VersionView {
        VersionView {
            runc_version: text::text_view(self.runc_version),
            spec_version: text::text_view(self.spec_version),
            commit: text::text_view(self.commit),
        }
    }
}

/// The error for an answer that does not say what it should.
pub open spec fn invalid(message: Seq<char>) -> ErrorView {
    error::failure(IoErrorKind::InvalidData, message)
}

/// What is known of the version when a further line has been read.
pub open spec fn version_line(known: VersionView, line: Seq<char>) -> Result<
    VersionView,
    ErrorView,
> {
    if text::within(line, "version"@) {
        match text::second_piece(line, "version "@) {
            Some(piece) => Ok(VersionView { runc_version: Some(piece), ..known }),
            None => Err(invalid("unable to parse runc version"@)),
        }
    } else if text::within(line, "spec"@) {
        match text::second_piece(line, ": "@) {
            Some(piece) => Ok(VersionView { spec_version: Some(piece), ..known }),
            None => Err(invalid("unable to parse spec version"@)),
        }
    } else if text::within(line, "commit"@) {
        match text::second_piece(line, ": "@) {
            Some(piece) => Ok(VersionView { commit: Some(piece), ..known }),
            None => Err(invalid("unable to parse commit hash"@)),
        }
    } else {
        Ok(known)
    }
}

/// What the lines say of the version, up to the first that makes no sense.
pub open spec fn version_lines(lines: Seq<Seq<char>>) -> Result<VersionView, ErrorView>
    decreases lines.len(),
{
    if lines.len() == 0 {
        Ok(VersionView { runc_version: None, spec_version: None, commit: None })
    } else {
        match version_lines(lines.drop_last()) {
            Ok(known) => version_line(known, text::trim(lines.last())),
            Err(e) => Err(e),
        }
    }
}

/// The version that `runc --version` reports, in the first three lines.
pub open spec fn version_said(output: Seq<char>) -> Result<VersionView, ErrorView> {
    let lines = text::split(output, '\n');
    version_lines(
        if lines.len() > 3 {
            lines.take(3)
        } else {
            lines
        },
    )
}

/// What a result says of the version.
pub open spec fn version_view(r: Result<Version, Error>) -> Result<VersionView, ErrorView> {
    match r {
        Ok(version) => Ok(version@),
        Err(e) => Err(e@),
    }
}

/// Reads a further line of the answer to `runc --version`.
fn read_version_line(known: Version, line: &str) -> (r: Result<Version, Error>)
    ensures
        version_view(r) == version_line(known@, line@),
{
    if text::contains(line, "version") {
        match text::piece_after(line, "version ") {
            Some(piece) => Ok(Version { runc_version: Some(piece), ..known }),
            None => Err(Error::found(IoErrorKind::InvalidData, "unable to parse runc version")),
        }
    } else if text::contains(line, "spec") {
        match text::piece_after(line, ": ") {
            Some(piece) => Ok(Version { spec_version: Some(piece), ..known }),
            None => Err(Error::found(IoErrorKind::InvalidData, "unable to parse spec version")),
        }
    } else if text::contains(line, "commit") {
        match text::piece_after(line, ": ") {
            Some(piece) => Ok(Version { commit: Some(piece), ..known }),
            None => Err(Error::found(IoErrorKind::InvalidData, "unable to parse commit hash")),
        }
    } else {
        Ok(known)
    }
}

proof fn lemma_version_prefix(lines: Seq<Seq<char>>, n: int)
    requires
        0 <= n <= lines.len(),
        version_lines(lines.take(n)) is Err,
    ensures
        version_lines(lines) == version_lines(lines.take(n)),
    decreases lines.len() - n,
{
    if n < lines.len() {
        assert(lines.take(n + 1).drop_last() =~= lines.take(n));
        lemma_version_prefix(lines, n + 1);
    } else {
        assert(lines.take(n) =~= lines);
    }
}

/// Reads the answer to `runc --version`.
pub fn parse_version(output: &str) -> (r: Result<Version, Error>)
    ensures
        version_view(r) == version_said(output@),
{
    let lines = text::split_text(output, '\n');
    let ghost all = text::split(output@, '\n');
    let ghost read = if all.len() > 3 {
        all.take(3)
    } else {
        all
    };
    let mut version = Version { runc_version: None, spec_version: None, commit: None };
    let mut i: usize = 0;
    while i < lines.len() && i < 3
        invariant
            i <= lines.len(),
            i <= 3,
            all == text::split(output@, '\n'),
            text::texts(lines@) == all,
            read == if all.len() > 3 {
                all.take(3)
            } else {
                all
            },
            version_lines(read.take(i as int)) == Ok::<VersionView, ErrorView>(version@),
        decreases lines.len() - i,
    {
        assert(read.take(i + 1).drop_last() =~= read.take(i as int));
        assert(read.take(i + 1).last() == lines@[i as int]@);
        let line = text::trim_text(lines[i].as_str());
        match read_version_line(version, line.as_str()) {
            Ok(known) => {
                version = known;
            },
            Err(e) => {
                proof {
                    lemma_version_prefix(read, i + 1);
                }
                return Err(e);
            },
        }
        i += 1;
    }
    assert(read.take(i as int) =~= read);
    Ok(version)
}

/// The first column at or behind `from` with this header.
pub open spec fn column(headers: Seq<Seq<char>>, name: Seq<char>, from: int) -> Option<int>
    decreases headers.len() - from,
{
    if from >= headers.len() {
        None
    } else if headers[from] == name {
        Some(from)
    } else {
        column(headers, name, from + 1)
    }
}

/// What a table row has in column `j` of `width`. The last column takes all
/// words that are left.
pub open spec fn cell(fields: Seq<Seq<char>>, width: int, j: int) -> Seq<char> {
    if j < width - 1 {
        fields[j]
    } else {
        text::join(fields.skip(width - 1), " "@)
    }
}

/// The first `n` columns of a row by their headers. Where a header stands
/// twice, the later column counts.
pub open spec fn row(headers: Seq<Seq<char>>, fields: Seq<Seq<char>>, n: int) -> Map<
    Seq<char>,
    Seq<char>,
>
    decreases n,
{
    if n <= 0 {
        Map::empty()
    } else {
        row(headers, fields, n - 1).insert(headers[n - 1], cell(fields, headers.len() as int, n - 1))
    }
}

/// Whether a line of the table stands for a process: an empty one does not,
/// nor one with a dash for the pid.
pub open spec fn is_process(line: Seq<char>, pid: int) -> bool {
    line.len() > 0 && text::words(line)[pid] != "-"@
}

/// The processes that the lines below the headers stand for.
pub open spec fn processes(lines: Seq<Seq<char>>, headers: Seq<Seq<char>>, pid: int) -> Seq<
    Map<Seq<char>, Seq<char>>,
>
    decreases lines.len(),
{
    if lines.len() == 0 {
        Seq::empty()
    } else {
        let before = processes(lines.drop_last(), headers, pid);
        if is_process(lines.last(), pid) {
            before.push(row(headers, text::words(lines.last()), headers.len() as int))
        } else {
            before
        }
    }
}

/// The headers of the table that `runc ps` prints.
pub open spec fn table_headers(output: Seq<char>) -> Seq<Seq<char>> {
    text::words(text::split(output, '\n')[0])
}

/// The processes that the table of `runc ps` lists.
pub open spec fn top_said(output: Seq<char>) -> Result<
    Seq<Map<Seq<char>, Seq<char>>>,
    ErrorView,
> {
    let headers = table_headers(output);
    match column(headers, "PID"@, 0) {
        Some(pid) => Ok(processes(text::split(output, '\n').skip(1), headers, pid)),
        None => Err(invalid("unable to locate pid header"@)),
    }
}

/// Whether a line below the headers has a pid, and the columns of a process
/// where it stands for one.
pub open spec fn line_fits(line: Seq<char>, width: int, pid: int) -> bool {
    line.len() > 0 ==> {
        &&& text::words(line).len() > pid
        &&& text::words(line)[pid] != "-"@ ==> text::words(line).len() >= width - 1
    }
}

/// Whether each line of the table fits its headers.
pub open spec fn table_fits(output: Seq<char>) -> bool {
    let headers = table_headers(output);
    let lines = text::split(output, '\n');
    match column(headers, "PID"@, 0) {
        Some(pid) => forall|i: int|
            1 <= i < lines.len() ==> line_fits(#[trigger] lines[i], headers.len() as int, pid),
        None => true,
    }
}

/// What a row says.
pub open spec fn row_view(row: StringHashMap<String>) -> Map<Seq<char>, Seq<char>> {
    row@.map_values(|s: String| s@)
}

/// What a result says of the processes.
pub open spec fn top_view(r: Result<TopResults, Error>) -> Result<
    Seq<Map<Seq<char>, Seq<char>>>,
    ErrorView,
> {
    match r {
        Ok(rows) => Ok(rows@.map_values(|m: StringHashMap<String>| row_view(m))),
        Err(e) => Err(e@),
    }
}

/// The first column with this header.
fn find_column(headers: &Vec<String>, name: &str) -> (r: Option<usize>)
    ensures
        match r {
            Some(i) => i < headers@.len() && column(text::texts(headers@), name@, 0) == Some(
                i as int,
            ),
            None => column(text::texts(headers@), name@, 0) is None,
        },
{
    let mut i: usize = 0;
    while i < headers.len()
        invariant
            i <= headers.len(),
            column(text::texts(headers@), name@, 0) == column(
                text::texts(headers@),
                name@,
                i as int,
            ),
        decreases headers.len() - i,
    {
        if text::same_text(headers[i].as_str(), name) {
            return Some(i);
        }
        i += 1;
    }
    None
}

/// Reads a line of the table that stands for a process.
fn read_row(headers: &Vec<String>, fields: &Vec<String>) -> (r: StringHashMap<String>)
    requires
        headers@.len() > 0,
        fields@.len() >= headers@.len() - 1,
    ensures
        row_view(r) == row(text::texts(headers@), text::texts(fields@), headers@.len() as int),
{
    let ghost names = text::texts(headers@);
    let ghost values = text::texts(fields@);
    let last: usize = headers.len() - 1;
    let mut process: StringHashMap<String> = StringHashMap::new();
    let mut j: usize = 0;
    assert(row_view(process) =~= row(names, values, 0));
    while j < headers.len()
        invariant
            j <= headers.len(),
            last == headers.len() - 1,
            fields@.len() >= last,
            names == text::texts(headers@),
            values == text::texts(fields@),
            row_view(process) == row(names, values, j as int),
        decreases headers.len() - j,
    {
        let value = if j < last {
            fields[j].clone()
        } else {
            text::join_text(fields, last, " ")
        };
        let ghost before = row_view(process);
        process.insert(headers[j].clone(), value);
        assert(row_view(process) =~= before.insert(names[j as int], value@));
        j += 1;
    }
    process
}

/// The headers of the table that `runc ps` printed.
pub fn top_headers(output: &str) -> (r: Vec<String>)
    ensures
        text::texts(r@) == table_headers(output@),
{
    let lines = text::split_text(output, '\n');
    proof {
        text::lemma_split_some(output@, '\n');
        assert(text::split(output@, '\n')[0] == lines@[0]@);
    }
    text::words_of(lines[0].as_str())
}

/// Whether each line of the table that `runc ps` printed fits its headers.
pub fn top_fits(output: &str) -> (r: bool)
    ensures
        r == table_fits(output@),
{
    let lines = text::split_text(output, '\n');
    let ghost all = text::split(output@, '\n');
    proof {
        text::lemma_split_some(output@, '\n');
    }
    let headers = top_headers(output);
    let pid = match find_column(&headers, "PID") {
        Some(pid) => pid,
        None => return true,
    };
    let ghost width = headers@.len() as int;
    let mut i: usize = 1;
    while i < lines.len()
        invariant
            1 <= i <= lines.len(),
            text::texts(lines@) == all,
            all == text::split(output@, '\n'),
            text::texts(headers@) == table_headers(output@),
            column(table_headers(output@), "PID"@, 0) == Some(pid as int),
            pid < headers@.len() == width,
            forall|k: int| 1 <= k < i ==> line_fits(#[trigger] all[k], width, pid as int),
        decreases lines.len() - i,
    {
        assert(all[i as int] == lines@[i as int]@);
        if !lines[i].as_str().is_empty() {
            let fields = text::words_of(lines[i].as_str());
            assert(text::texts(fields@) == text::words(all[i as int]));
            if fields.len() <= pid {
                assert(!line_fits(all[i as int], width, pid as int));
                return false;
            }
            assert(text::words(all[i as int])[pid as int] == fields@[pid as int]@);
            if !text::same_text(fields[pid].as_str(), "-") && fields.len() < headers.len() - 1 {
                assert(!line_fits(all[i as int], width, pid as int));
                return false;
            }
        }
        i += 1;
    }
    true
}

/// Reads the table that `runc ps` printed.
pub fn parse_top(output: &str) -> (r: Result<TopResults, Error>)
    requires
        table_fits(output@),
    ensures
        top_view(r) == top_said(output@),
{
    let lines = text::split_text(output, '\n');
    let ghost all = text::split(output@, '\n');
    proof {
        text::lemma_split_some(output@, '\n');
    }
    let headers = top_headers(output);
    let ghost names = text::texts(headers@);
    let pid = match find_column(&headers, "PID") {
        Some(pid) => pid,
        None => return Err(Error::found(IoErrorKind::InvalidData, "unable to locate pid header")),
    };
    let ghost body = all.skip(1);
    let mut rows: TopResults = Vec::new();
    let mut i: usize = 1;
    assert(rows@.map_values(|m: StringHashMap<String>| row_view(m)) =~= processes(
        body.take(0),
        names,
        pid as int,
    ));
    while i < lines.len()
        invariant
            1 <= i <= lines.len(),
            text::texts(lines@) == all,
            names == text::texts(headers@),
            pid < headers@.len(),
            body == all.skip(1),
            forall|k: int|
                1 <= k < all.len() ==> line_fits(#[trigger] all[k], names.len() as int, pid as int),
            rows@.map_values(|m: StringHashMap<String>| row_view(m)) == processes(
                body.take(i - 1),
                names,
                pid as int,
            ),
        decreases lines.len() - i,
    {
        proof {
            assert(all[i as int] == lines@[i as int]@);
            assert(body.take(i as int).drop_last() =~= body.take(i - 1));
            assert(body.take(i as int).last() == all[i as int]);
            assert(line_fits(all[i as int], names.len() as int, pid as int));
        }
        if !lines[i].as_str().is_empty() {
            let fields = text::words_of(lines[i].as_str());
            assert(text::texts(fields@) == text::words(all[i as int]));
            assert(text::words(all[i as int])[pid as int] == fields@[pid as int]@);
            if !text::same_text(fields[pid].as_str(), "-") {
                let ghost before = rows@.map_values(|m: StringHashMap<String>| row_view(m));
                let process = read_row(&headers, &fields);
                let ghost process_view = row_view(process);
                rows.push(process);
                assert(rows@.map_values(|m: StringHashMap<String>| row_view(m)) =~= before.push(
                    process_view,
                ));
            }
        }
        i += 1;
    }
    assert(body.take(i - 1) =~= body);
    Ok(rows)
}

/// The JSON in an answer that is a list. Go writes an empty list as `null`.
pub open spec fn payload(output: Seq<char>) -> Option<Seq<char>> {
    if text::trim(output) == "null"@ {
        None
    } else {
        Some(text::trim(output))
    }
}

/// The JSON in the answer of `runc list` or `runc ps`, where it is no empty list.
pub fn json_payload(output: &str) -> (r: Option<String>)
    ensures
        text::text_view(r) == payload(output@),
{
    let trimmed = text::trim_text(output);
    if text::same_text(trimmed.as_str(), "null") {
        None
    } else {
        Some(trimmed)
    }
}

/// What `serde_json::from_str` reads as a list of numbers up to `max`, where
/// the text is one.
pub uninterp spec fn json_numbers(json: Seq<char>, max: usize) -> Option<Seq<usize>>;

/// `serde_json::from_str` for a list of numbers. It fails on just those texts
/// that are no JSON array of numbers that fit. Which fault it reports on such a
/// text is left open.
#[verifier::external_body]
fn numbers_from_json(json: &str) -> (r: Result<Vec<usize>, JsonFault>)
    ensures
        match r {
            Ok(numbers) => json_numbers(json@, usize::MAX) == Some(numbers@),
            Err(_) => json_numbers(json@, usize::MAX) is None,
        },
{
    serde_json::from_str::<Vec<usize>>(json)
}

/// What reading a value as JSON led to.
pub fn read<T>(decoded: Result<T, JsonFault>) -> (r: Result<T, Error>)
    ensures
        match decoded {
            Ok(value) => r == Ok::<T, Error>(value),
            Err(e) => r == Err::<T, Error>(Error::JsonError(e)),
        },
{
    match decoded {
        Ok(value) => Ok(value),
        Err(e) => Err(Error::from(e)),
    }
}

/// The list in an answer: what its JSON was read as, or nothing where the list
/// was empty.
pub fn listed<T>(decoded: Option<Result<Vec<T>, JsonFault>>) -> (r: Result<Vec<T>, Error>)
    ensures
        match decoded {
            Some(Ok(list)) => r == Ok::<Vec<T>, Error>(list),
            Some(Err(e)) => r == Err::<Vec<T>, Error>(Error::JsonError(e)),
            None => r matches Ok(list) && list@ == Seq::<T>::empty(),
        },
{
    match decoded {
        Some(decoded) => read(decoded),
        None => Ok(Vec::new()),
    }
}

/// Reads the answer of `runc ps`.
pub fn parse_pids(output: &str) -> (r: Result<Vec<usize>, Error>)
    ensures
        match payload(output@) {
            Some(json) => match json_numbers(json, usize::MAX) {
                Some(numbers) => r matches Ok(pids) && pids@ == numbers,
                None => r matches Err(e) && e is JsonError,
            },
            None => r matches Ok(pids) && pids@ == Seq::<usize>::empty(),
        },
{
    let decoded = match json_payload(output) {
        Some(json) => Some(numbers_from_json(json.as_str())),
        None => None,
    };
    listed(decoded)
}

/// The statistics in the answer of `runc events --stats`, read as JSON.
pub fn stats_of(decoded: Result<Event, JsonFault>) -> (r: Result<Stats, Error>)
    ensures
        match decoded {
            Ok(event) => match event.stats {
                Some(stats) => r == Ok::<Stats, Error>(stats),
                None => r matches Err(e) && e@ == invalid("missing stats"@),
            },
            Err(e) => r == Err::<Stats, Error>(Error::JsonError(e)),
        },
{
    match read(decoded) {
        Ok(event) => match event.stats {
            Some(stats) => Ok(stats),
            None => Err(Error::found(IoErrorKind::InvalidData, "missing stats")),
        },
        Err(e) => Err(e),
    }
}

} // verus!
