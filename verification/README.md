# beardpilot

A terminal coding agent for language models: a chat whose model may call
file-system tools (`Read`, `Find`, `ListFiles`, `Bash`) after the user
confirms each call, shown in a full-screen terminal interface.

The crate is split in two:

- `src/` is the library, verified with Verus: the line editor of the input
  box, soft wrapping and scrolling of the chat pane, the pane layout and key
  and mouse handling, the chat history and the requests built from it, the
  assembly of streamed tool calls, the framing of streamed provider replies,
  slash commands, and the command lines and replies of the tools. Each
  public function states its result in its contract; the laws that relate
  several functions are public proof functions (`lemma_*`).
- `app/` is the program around it: the terminal, the HTTP clients, the
  actor that streams replies, the processes the tools run, the
  configuration file, and the serde copies of the library's types.

`tests/` runs the library on concrete values.
