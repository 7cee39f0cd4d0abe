# llama_cpp_2

OpenAI-compatible chat types for llama.cpp and the protocol of its streaming
chat parser, written in Rust and verified with Verus.

* `src/openai/tools.rs`, `template.rs`, `message.rs`: tool definitions, chat
  template options, parsed messages and streaming deltas.
* `src/openai/wire.rs`: the JSON form of all of these, and what that form
  determines.
* `src/openai/parse_state.rs`: a parse session as a state machine that says which
  native call comes next; `parse_laws.rs` proves what holds of whole updates.
* `src/openai/replay.rs`: whole updates, plain and typed, replayed from recorded
  replies of the native library.
* `src/openai/error.rs`: the errors of an update.
* `src/openai/value.rs`: tools and tool choice modes written as and read from JSON
  values; what was written reads back. `src/json.rs` opens and closes the values.
* `src/sampling/params.rs`: sampler chain parameters.
* `src/trusted.rs`: everything that is assumed of `serde_json` and `std`.
* `app/`: the code around the library that calls the native parser and reads and
  writes JSON texts. It needs the `llama_cpp_sys_2` bindings.
