# renfield

Building blocks of a client library for large language model APIs
(Anthropic, Google Gemini, OpenAI, OpenRouter, Ollama), verified with
Verus.

- `src/` is the verified library:
  - `json`: a JSON value model and the insertion rule of JSON objects;
  - `json_eq`: equality of JSON values, with objects compared as maps;
  - `tools`: JSON schemas of Rust types (`Schema`), object and enum
    schemas, and the tool documents each provider expects;
  - `client`: message, request, model and error types of each
    provider, with their builders; connection settings (endpoints,
    timeout, credential headers); and the scanners that split
    server-sent events, newline-delimited JSON and streamed JSON arrays
    into events;
  - `mcp`: Model Context Protocol types.
- `app/` holds the HTTP clients (reqwest and tokio): they send the
  requests, read the responses and convert values to and from their
  JSON wire form.
- `tests/` exercises the library on concrete values.
