# binggpt

A command-line client for the Bing chat service. The logic is a Verus library
(`src/`); the program around it (`app/`) does the terminal, file, database,
HTTP and websocket work.

- `src/text.rs`: Unicode whitespace, trimming, text comparison, decimal numbers.
- `src/input.rs`: commands typed at the prompt (`:q`, `:more`, `:end`, ...).
- `src/reader.rs`: the prompts as state machines fed one read at a time.
- `src/json.rs`: fields of the service's JSON, read through `gjson`.
- `src/conversation.rs`: opening a conversation; chat errors.
- `src/msg.rs`: the chat requests and their framing on the wire.
- `src/chat.rs`: the chat session: messages sent, updates received,
  suggested replies.
- `src/answer.rs`: printing a streamed answer part by part.
- `src/http.rs`: paths, the cookie header and the request headers.
