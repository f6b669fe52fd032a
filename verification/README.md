# pyg

Agents that talk with a language model, carry out the tools that it asks for, and take part in a
chat.

`src/` is a library verified with Verus. It decides and does no input or output of its own:

- `agent_loop`: one turn of an agent, as a machine that is told what happened and says what to do.
  `tool_calls`, `dispatch`, `summary` and `json` hold its parts, `loop_laws` and `request_laws`
  what holds of every run.
- `openai`: the conversation as requests of the OpenAI API, and the chunks of its streams.
- `participant`: what an agent learns from the events of a chat, which messages it answers, and
  the events that an answer becomes. `participant_laws` says what holds over any number of events.
- `app`: an agent wired to transports and observers: the steps of the start, how the bridge is
  built, and which events may pass. `app_laws` says what holds of it.
- `agent`, `event`, `ids`, `llm`, `message`, `text`, `tool`: the values that these work on.

`app/` is ordinary Rust around the library: the traits for models, tools and agents, the clock,
the channels between tasks, and the bridge of `telesema_core`. `tests/` runs the library.

What is trusted is marked `external_body` or `assume_specification`, with a comment that says what
is claimed: in `text` of the standard library, in `json` of `serde_json`, in `openai` of
`async_openai`.
