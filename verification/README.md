# forge

A small library for building AI agent loops against OpenAI-compatible
chat-completion servers, verified with Verus.

- `src/` is the verified library: message types (`dtos`), the tool registry
  (`tools_registry`), agents that keep their own history (`agents`), stateless
  agents with a builder (`api::agents`), the framing of streamed answers
  (`sse`), the JSON items it uses from `serde_json` (`json`) and its errors
  (`error`). The tool loops are state machines: each step returns what to do
  next (send a request, run a tool, stream, or finish) and takes back what
  came of it.
- `app/` is the asynchronous face: it sends requests with `reqwest`, runs the
  tools (an async trait), reads and writes JSON with `serde`, and clamps the
  temperature.
- `tests/` exercise the library on concrete conversations.
