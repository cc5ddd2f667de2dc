# dd_agent

A foundation layer for an agent built on OpenAI-compatible Chat Completions
services, written in Verus.

- `src/` is the verified library:
  - `types.rs`: configuration (`LlmConfig`) and the protocol's message types.
  - `client.rs`: endpoint validation (`OpenAiCompatibleClient::new`), request
    construction, status and error-reply handling, streamed-event classification.
  - `tools.rs`: the PowerShell tool definition, the command policy
    (`check_power_shell`), command planning and output reports.
  - `agent.rs`: the interactive agent's conversation state and decisions.
  - `text.rs`: Unicode white space, trimming, substring search, number parsing.
  - `error.rs`: the error type.
  - `foreign.rs`: the calls into std, `url`/`reqwest` and `serde_json`, with the
    contracts the library relies on.
- `app/` is the program around it: environment, HTTP, event streams, JSON
  encoding, process spawning and the terminal loop.
- `tests/` exercises the library.
