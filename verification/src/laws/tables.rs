//! What holds of the answers of runc: the report of its version and the table of
//! processes.

use crate::error::{Error, ErrorView, IoErrorKind, IoErrorView};
use crate::laws;
use crate::laws::wording;
use crate::reply;
use crate::reply::{TopResults, Version, VersionView};
use crate::text;
use vstd::hash_map::StringHashMap;
use vstd::prelude::*;

verus! {

/// The error for an answer that does not say what it should.
pub open spec fn bad_answer(message: Seq<char>) -> ErrorView {
    ErrorView::IoError(
        IoErrorView { kind: IoErrorKind::InvalidData, os_code: None, message },
    )
}

/// What a line says of the version. One that holds none of the words that mark a
/// line leaves what is known as it was, and any other changes one field only.
pub proof fn law_version_line(known: VersionView, line: Seq<char>)
    ensures
        !text::within(line, "version"@) && !text::within(line, "spec"@) && !text::within(
            line,
            "commit"@,
        ) ==> reply::version_line(known, line) == Ok::<VersionView, ErrorView>(known),
        text::within(line, "version"@) ==> reply::version_line(known, line) == match text::second_piece(
            line,
            "version "@,
        ) {
            Some(piece) => Ok::<VersionView, ErrorView>(
                VersionView {
                    runc_version: Some(piece),
                    spec_version: known.spec_version,
                    commit: known.commit,
                },
            ),
            None => Err(bad_answer("unable to parse runc version"@)),
        },
        !text::within(line, "version"@) && text::within(line, "spec"@) ==> reply::version_line(
            known,
            line,
        ) == match text::second_piece(line, ": "@) {
            Some(piece) => Ok::<VersionView, ErrorView>(
                VersionView {
                    runc_version: known.runc_version,
                    spec_version: Some(piece),
                    commit: known.commit,
                },
            ),
            None => Err(bad_answer("unable to parse spec version"@)),
        },
        !text::within(line, "version"@) && !text::within(line, "spec"@) && text::within(
            line,
            "commit"@,
        ) ==> reply::version_line(known, line) == match text::second_piece(line, ": "@) {
            Some(piece) => Ok::<VersionView, ErrorView>(
                VersionView {
                    runc_version: known.runc_version,
                    spec_version: known.spec_version,
                    commit: Some(piece),
                },
            ),
            None => Err(bad_answer("unable to parse commit hash"@)),
        },
{
}

proof fn lemma_version_without(lines: Seq<Seq<char>>, mark: Seq<char>)
    requires
        forall|i: int| 0 <= i < lines.len() ==> !text::within(text::trim(#[trigger] lines[i]), mark),
        reply::version_lines(lines) is Ok,
    ensures
        ({
            let v = reply::version_lines(lines)->Ok_0;
            &&& mark == "version"@ ==> v.runc_version is None
            &&& mark == "spec"@ ==> v.spec_version is None
            &&& mark == "commit"@ ==> v.commit is None
        }),
    decreases lines.len(),
{
    if lines.len() > 0 {
        let front = lines.drop_last();
        assert forall|i: int| 0 <= i < front.len() implies !text::within(
            text::trim(#[trigger] front[i]),
            mark,
        ) by {
            assert(front[i] == lines[i]);
        }
        lemma_version_without(front, mark);
        assert(lines[lines.len() - 1] == lines.last());
        law_version_line(reply::version_lines(front)->Ok_0, text::trim(lines.last()));
    }
}

/// A report of which none of the first three lines names the commit is read
/// without one, and so for the version and for that of the specification.
pub proof fn law_version_without(output: Seq<char>, mark: Seq<char>)
    requires
        forall|i: int|
            0 <= i < 3 && i < text::split(output, '\n').len() ==> !text::within(
                text::trim(#[trigger] text::split(output, '\n')[i]),
                mark,
            ),
        reply::version_said(output) is Ok,
    ensures
        mark == "version"@ ==> reply::version_said(output)->Ok_0.runc_version is None,
        mark == "spec"@ ==> reply::version_said(output)->Ok_0.spec_version is None,
        mark == "commit"@ ==> reply::version_said(output)->Ok_0.commit is None,
{
    let lines = text::split(output, '\n');
    let read = if lines.len() > 3 {
        lines.take(3)
    } else {
        lines
    };
    assert forall|i: int| 0 <= i < read.len() implies !text::within(
        text::trim(#[trigger] read[i]),
        mark,
    ) by {
        assert(read[i] == lines[i]);
    }
    lemma_version_without(read, mark);
}

/// The report is read line by line, each without the white space at its ends.
/// The first line is read with nothing known, a further one with what the lines
/// in front of it said, and one behind the third is not read.
pub proof fn law_version_by_line(output: Seq<char>, line: Seq<char>)
    requires
        !line.contains('\n'),
    ensures
        reply::version_said(line) == reply::version_line(
            VersionView { runc_version: None, spec_version: None, commit: None },
            text::trim(line),
        ),
        text::split(output, '\n').len() < 3 ==> reply::version_said(output.push('\n') + line)
            == match reply::version_said(output) {
            Ok(known) => reply::version_line(known, text::trim(line)),
            Err(e) => Err(e),
        },
        text::split(output, '\n').len() >= 3 ==> reply::version_said(output.push('\n') + line)
            == reply::version_said(output),
{
    laws::law_split_without_separator(line, '\n');
    laws::law_split_at_separator(output, '\n', line);
    let lines = text::split(output, '\n');
    let more = text::split(output.push('\n') + line, '\n');
    assert(more =~= lines.push(line));
    assert(seq![line].drop_last() =~= Seq::empty());
    assert(seq![line].last() == line);
    reveal_with_fuel(reply::version_lines, 2);
    assert(lines.push(line).drop_last() =~= lines);
    if lines.len() >= 3 {
        assert(more.take(3) =~= lines.take(3));
        assert(lines.take(lines.len() as int) =~= lines);
    }
}

/// What a result says of the version, and a table of its rows, is what it holds.
pub proof fn law_reply_views(
    v: Result<Version, Error>,
    top: Result<TopResults, Error>,
    row: StringHashMap<String>,
)
    ensures
        v is Ok <==> reply::version_view(v) is Ok,
        v is Err ==> reply::version_view(v)->Err_0 == v->Err_0@,
        v is Ok ==> {
            let said = reply::version_view(v)->Ok_0;
            let held = v->Ok_0;
            &&& said.runc_version == match held.runc_version {
                Some(s) => Some(s@),
                None => None,
            }
            &&& said.spec_version == match held.spec_version {
                Some(s) => Some(s@),
                None => None,
            }
            &&& said.commit == match held.commit {
                Some(s) => Some(s@),
                None => None,
            }
        },
        top is Ok <==> reply::top_view(top) is Ok,
        top is Err ==> reply::top_view(top)->Err_0 == top->Err_0@,
        top is Ok ==> reply::top_view(top)->Ok_0.len() == top->Ok_0@.len() && forall|i: int|
            0 <= i < top->Ok_0@.len() ==> #[trigger] reply::top_view(top)->Ok_0[i]
                == reply::row_view(top->Ok_0@[i]),
        forall|k: Seq<char>| #[trigger] reply::row_view(row).contains_key(k) <==> row@.contains_key(k),
        forall|k: Seq<char>|
            row@.contains_key(k) ==> #[trigger] reply::row_view(row)[k] == row@[k]@,
{
}

/// Whether `i` is the first place at which `name` stands among the headers.
pub open spec fn first_at(headers: Seq<Seq<char>>, name: Seq<char>, i: int) -> bool {
    &&& 0 <= i < headers.len()
    &&& headers[i] == name
    &&& forall|j: int| 0 <= j < i ==> headers[j] != name
}

proof fn lemma_column(headers: Seq<Seq<char>>, name: Seq<char>, from: int)
    requires
        0 <= from <= headers.len(),
    ensures
        match reply::column(headers, name, from) {
            Some(i) => from <= i < headers.len() && headers[i] == name && forall|j: int|
                from <= j < i ==> headers[j] != name,
            None => forall|j: int| from <= j < headers.len() ==> headers[j] != name,
        },
    decreases headers.len() - from,
{
    if from < headers.len() && headers[from] != name {
        lemma_column(headers, name, from + 1);
    }
}

/// The column of a header is the first place at which it stands, and there is
/// none just where it stands nowhere.
pub proof fn law_column(headers: Seq<Seq<char>>, name: Seq<char>, i: int)
    ensures
        reply::column(headers, name, 0) == Some(i) <==> first_at(headers, name, i),
        reply::column(headers, name, 0) is None <==> !headers.contains(name),
{
    lemma_column(headers, name, 0);
    if headers.contains(name) {
        let k = headers.index_of(name);
        assert(headers[k] == name);
    }
    match reply::column(headers, name, 0) {
        Some(k) => {
            assert(headers.contains(headers[k]));
        },
        None => {},
    }
}

/// A line of headers alone is a table without processes, where `PID` is among
/// its words, and an error otherwise.
pub proof fn law_table_of_headers(line: Seq<char>)
    requires
        !line.contains('\n'),
    ensures
        reply::table_headers(line) == text::words(line),
        text::words(line).contains("PID"@) ==> reply::top_said(line) == Ok::<
            Seq<Map<Seq<char>, Seq<char>>>,
            ErrorView,
        >(Seq::empty()),
        reply::table_fits(line),
{
    laws::law_split_without_separator(line, '\n');
    law_column(text::words(line), "PID"@, 0);
    assert(seq![line].skip(1) =~= Seq::empty());
    assert(text::split(line, '\n').len() == 1);
}

/// A table whose headers do not have `PID` among them is an error, whatever its
/// lines are.
pub proof fn law_table_without_pid(output: Seq<char>)
    requires
        !reply::table_headers(output).contains("PID"@),
    ensures
        reply::top_said(output) == Err::<Seq<Map<Seq<char>, Seq<char>>>, ErrorView>(
            bad_answer("unable to locate pid header"@),
        ),
        reply::table_fits(output),
{
    law_column(reply::table_headers(output), "PID"@, 0);
}

proof fn lemma_further_line(output: Seq<char>, line: Seq<char>)
    requires
        !line.contains('\n'),
    ensures
        text::split(output.push('\n') + line, '\n') == text::split(output, '\n').push(line),
        reply::table_headers(output.push('\n') + line) == reply::table_headers(output),
        text::split(output.push('\n') + line, '\n').skip(1) == text::split(output, '\n').skip(
            1,
        ).push(line),
{
    laws::law_split_without_separator(line, '\n');
    laws::law_split_at_separator(output, '\n', line);
    text::lemma_split_some(output, '\n');
    let lines = text::split(output, '\n');
    assert(lines + seq![line] =~= lines.push(line));
    assert(lines.push(line).skip(1) =~= lines.skip(1).push(line));
    assert(lines.push(line)[0] == lines[0]);
}

/// A further line adds a process to the table, behind the others, unless it is
/// empty or its word in the column `PID` is a dash. The others stay as they were.
pub proof fn law_table_grows_by_line(output: Seq<char>, line: Seq<char>, pid: int)
    requires
        first_at(reply::table_headers(output), "PID"@, pid),
        !line.contains('\n'),
    ensures
        reply::table_headers(output.push('\n') + line) == reply::table_headers(output),
        reply::top_said(output) is Ok,
        reply::top_said(output.push('\n') + line) is Ok,
        ({
            let before = reply::top_said(output)->Ok_0;
            let after = reply::top_said(output.push('\n') + line)->Ok_0;
            if line.len() == 0 || text::words(line)[pid] == "-"@ {
                after == before
            } else {
                after.len() == before.len() + 1 && after.drop_last() == before
            }
        }),
{
    lemma_further_line(output, line);
    law_column(reply::table_headers(output), "PID"@, pid);
    let lines = text::split(output, '\n').skip(1);
    assert(lines.push(line).drop_last() =~= lines);
    let headers = reply::table_headers(output);
    let before = reply::processes(lines, headers, pid);
    let after = reply::processes(lines.push(line), headers, pid);
    if after.len() == before.len() + 1 {
        assert(after.drop_last() =~= before);
    }
}

/// The process that a further line adds has a value under each header and no
/// other: the word of the line in that column, and in the last column all words
/// that are left, with a space between each two. Where a header stands twice, the
/// later column counts.
pub proof fn law_row_of_a_line(output: Seq<char>, line: Seq<char>, pid: int, j: int)
    requires
        first_at(reply::table_headers(output), "PID"@, pid),
        !line.contains('\n'),
        line.len() > 0,
        text::words(line)[pid] != "-"@,
        0 <= j < reply::table_headers(output).len(),
        forall|m: int|
            j < m < reply::table_headers(output).len() ==> reply::table_headers(output)[m]
                != reply::table_headers(output)[j],
    ensures
        ({
            let headers = reply::table_headers(output);
            let added = reply::top_said(output.push('\n') + line)->Ok_0.last();
            &&& forall|k: Seq<char>| #[trigger] added.contains_key(k) <==> headers.contains(k)
            &&& j < headers.len() - 1 ==> added[headers[j]] == text::words(line)[j]
            &&& j == headers.len() - 1 ==> added[headers[j]] == text::join(
                text::words(line).skip(j),
                " "@,
            )
        }),
{
    lemma_further_line(output, line);
    law_column(reply::table_headers(output), "PID"@, pid);
    let headers = reply::table_headers(output);
    let fields = text::words(line);
    let lines = text::split(output, '\n').skip(1);
    assert(lines.push(line).drop_last() =~= lines);
    laws::law_row_follows_headers(headers, fields, headers.len() as int);
    let added = reply::top_said(output.push('\n') + line)->Ok_0.last();
    assert(added == reply::row(headers, fields, headers.len() as int));
    assert forall|k: Seq<char>| #[trigger] added.contains_key(k) <==> headers.contains(k) by {
        if headers.contains(k) {
            let i = headers.index_of(k);
            assert(headers[i] == k);
        }
    }
}

/// White space in front of a line of the table, and behind it, makes no
/// difference: it is listed as before, with the same row.
pub proof fn law_table_ignores_padding(
    output: Seq<char>,
    front: Seq<char>,
    line: Seq<char>,
    back: Seq<char>,
)
    requires
        !(front + line + back).contains('\n'),
        !line.contains('\n'),
        line.len() > 0,
        forall|i: int| 0 <= i < front.len() ==> text::white_space(#[trigger] front[i]),
        forall|i: int| 0 <= i < back.len() ==> text::white_space(#[trigger] back[i]),
    ensures
        reply::top_said(output.push('\n') + (front + line + back)) == reply::top_said(
            output.push('\n') + line,
        ),
        reply::table_fits(output.push('\n') + (front + line + back)) == reply::table_fits(
            output.push('\n') + line,
        ),
{
    let padded = front + line + back;
    wording::law_words_ignore_padding(front, line, back);
    lemma_further_line(output, padded);
    lemma_further_line(output, line);
    let headers = reply::table_headers(output);
    let lines = text::split(output, '\n').skip(1);
    assert(lines.push(line).drop_last() =~= lines);
    assert(lines.push(padded).drop_last() =~= lines);
    match reply::column(headers, "PID"@, 0) {
        Some(pid) => {
            lemma_column(headers, "PID"@, 0);
            law_column(headers, "PID"@, pid);
            law_table_fits_by_line(output, padded, pid);
            law_table_fits_by_line(output, line, pid);
        },
        None => {},
    }
}

/// A table fits with a further line just where it fits without it and the line is
/// empty, or has a word in the column `PID` and, unless that is a dash, a word for
/// each column but the last.
pub proof fn law_table_fits_by_line(output: Seq<char>, line: Seq<char>, pid: int)
    requires
        first_at(reply::table_headers(output), "PID"@, pid),
        !line.contains('\n'),
    ensures
        reply::table_fits(output.push('\n') + line) <==> reply::table_fits(output) && (line.len()
            == 0 || (text::words(line).len() > pid && (text::words(line)[pid] == "-"@
            || text::words(line).len() + 1 >= reply::table_headers(output).len()))),
{
    lemma_further_line(output, line);
    law_column(reply::table_headers(output), "PID"@, pid);
    text::lemma_split_some(output, '\n');
    let width = reply::table_headers(output).len() as int;
    let lines = text::split(output, '\n');
    let more = lines.push(line);
    if reply::table_fits(output.push('\n') + line) {
        assert(reply::line_fits(more[lines.len() as int], width, pid));
        assert forall|i: int| 1 <= i < lines.len() implies reply::line_fits(
            #[trigger] lines[i],
            width,
            pid,
        ) by {
            assert(reply::line_fits(more[i], width, pid));
        }
    }
    if reply::table_fits(output) && reply::line_fits(line, width, pid) {
        assert forall|i: int| 1 <= i < more.len() implies reply::line_fits(
            #[trigger] more[i],
            width,
            pid,
        ) by {
            if i < lines.len() {
                assert(reply::line_fits(lines[i], width, pid));
            }
        }
    }
}

/// The JSON in an answer is the answer without the white space at its ends, and
/// there is none just where that is `null`.
pub proof fn law_payload(output: Seq<char>)
    ensures
        reply::payload(output) is None <==> text::trim(output) == "null"@,
        reply::payload(output) matches Some(json) ==> json == text::trim(output),
{
}

/// An answer that does not say what it should is invalid data, with the message
/// that was given.
pub proof fn law_invalid(message: Seq<char>)
    ensures
        reply::invalid(message) == bad_answer(message),
{
}

} // verus!
