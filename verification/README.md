# s3rs

An S3 command-line client (AWS and Ceph, signature v2 and v4) whose logic is
written in Verus and proved against its contracts.

- `src/` — the verified library:
  - `patterns.rs`: the S3 address and JSON listing patterns (matched with `regex`);
  - `text.rs`: splitting and searching over characters;
  - `handler.rs`: the request of every operation, v2/v4 signing (with the
    signing functions of `s3handler`) and the handler's mode switches;
  - `listing.rs`: names out of XML (`quick_xml`) and JSON (`serde_json`) listings;
  - `command.rs`: the commands and the steps each stands for;
  - `config.rs`, `choice.rs`, `detail.rs`, `logger.rs`: account choice,
    detailed rows and log levels;
  - `laws.rs`: properties that relate several operations.
- `app/` — the program: command line (structopt), configuration files,
  terminal, logging, and the network calls.
- `tests/` — tests of the library on concrete values.
