# zkevm_bench

Fixture generation and benchmark orchestration for zkEVM guest programs,
with the decisions proved correct by Verus.

- `src/` is the verified library:
  - `text`: character-level string operations (trimming, searching,
    splitting, ASCII case, decimal numbers);
  - `headers`: flat `key:value` HTTP headers turned into a header map;
  - `rpc`: the RPC generator's builder, supported networks and modes;
  - `fetch`: the RPC fetches (last blocks, one block, from a block, live
    polling) as state machines driven by the replies to RPC calls;
  - `fixture`: stateless validation fixtures, their names and file paths,
    and the counting of written fixtures;
  - `eest`: the EEST fixture generator's builder and test selection;
  - `runner`: report and dump paths, guest program sources, and the
    processing of one benchmark input as a state machine;
  - `guest`: the benchmark inputs of the guest programs.
- `app/` holds the program around it: the command line, file and network
  I/O, the zkVMs and the outside crates that cannot be verified.
- `tests/` runs the library on concrete values.
