# runc

A client for the [runc](https://github.com/opencontainers/runc) container
runtime, written in Verus.

The library under `src/` decides: which command lines runc is given, in which
order a call creates, writes and removes its temporary file, what the end of a
run means, and what the text that runc prints says. Each function states in its
contract what it gives back, and Verus proves it; `src/laws.rs` holds what
follows of several functions together. The library does no input or output.

The crate under `app/` does the input and output, with futures and tokio: it
starts runc, reads and writes files, and turns JSON into the types of the
library.

## What the proofs rest on

| Item | What is believed of it |
| --- | --- |
| `String::push` | appends one character |
| `String::from_utf8` | decodes UTF-8, and fails on what is none |
| `String::from_utf8_lossy` | its text depends on the bytes alone, and is what they encode where they are UTF-8 |
| `Uuid::new_v4` | prints as a random UUID does |
| `serde_json::from_str` | the list of numbers that it reads depends on the text alone |

The errors of `serde_json` and of `String::from_utf8` are carried as they come.

## Limits

Checkpoints and the passing on of open file descriptors are not supported.
