# power_test

An HTTP stress tester for LLM inference endpoints, whose logic is a verified
library.

- `src/` is the library, verified by Verus but for the few functions that call
  outside code (see below). It covers parsing streamed replies, collecting metrics, pacing and scheduling requests,
  sessions, datasets, arguments and configuration files, the history of runs,
  comparisons, reports and the terminal view. Public proof functions state what
  holds of several functions together.
- `app/` is the program around it: argument parsing, HTTP, files, the terminal,
  the runtime, and floating point. It hands plain values to the library and
  takes plain values back.
- `tests/` runs the library on concrete values.

## Conventions

- Floating-point numbers pass through the library as their bits
  (`binary64::Real`). Rates and means leave it as exact ratios; the program
  divides them, writes them out, and hands the texts back for the reports.
- JSON documents (the saved metrics and the data of the pages) are built by the
  library. What is a fraction in them comes as a JSON value from the program.
- Durations are nanoseconds while a request is measured, and microseconds once
  it is recorded.
- Times and paths are texts.
- A file is read by the program, and its parsed rows are handed to the library,
  which decides what they mean and what is wrong with them.

The functions marked `external_body` and the items written with
`assume_specification` call the standard library and the crates `serde_json`,
`hdrhistogram`, `uuid` and `chrono`. Each says what it claims of them.
