# af_cli

The verified core of `amc`, the command-line client of the Auto Fish Android
control service. The client sends one command to the service over its REST
API and prints one JSON line with the outcome.

- `src/` is the library, verified with Verus:
  - `text.rs`: string operations (white space, trimming, substring search,
    decimal notation) stated over `Seq<char>`;
  - `errors.rs`: result codes, exit statuses and the error type;
  - `proxy.rs`: proxy modes, which targets bypass the proxy, and the message
    of a failed request;
  - `record.rs`: the JSON objects the client writes and the reading of
    response bodies;
  - `http.rs`: the global options, the preparation of a request and the
    interpretation of its answer;
  - `commands.rs`: the commands, the requests each one makes and what it
    reports, run step by step;
  - `output.rs`: the output line, the exit status and the session log files;
  - `memory.rs`: the trace records and their integer storage.
- `app/` is the program around it: argument parsing, the HTTP transport,
  interrupt handling, the session files on disk, the SQLite trace store and
  printing.
- `tests/` exercises the library on concrete values.
