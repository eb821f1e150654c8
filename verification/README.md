# backend

The core of a portfolio assistant's backend, verified with Verus.

- `src/` is the library: request signing (`auth`, on HMAC-SHA256 from `crypto`),
  decimal parsing (`number`), string handling (`text`), the prompts sent to the
  language model (`prompt`), the Gemini protocol (`gemini`), the request pipeline
  as a state machine (`pipeline`), errors (`error`) and the HTTP layer's decisions
  (`web`). Every function states what it returns; the laws of the pipeline and of
  signing are proof functions beside the code they speak of.
- `app/` is the service around it: the actix-web server, the Postgres store, the
  Gemini clients, serde copies of the library's types, and the loop that performs
  what a pipeline `Session` asks for.
- `tests/` runs the library on concrete values.
