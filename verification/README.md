# groqqle

A search front end that answers a query with web or news results, or with a
summary when the query is a URL.

- `src/` is the verified library: request routing, result shaping, settings
  handling, request framing for the language model, and the fallback
  summarizer, each with its contract and the laws that relate them.
- `app/` is the program around it: the command line, the HTTP server, the
  settings file, and the network calls to Brave Search, the fetched pages and
  the language model.
- `tests/` exercises the library on concrete values.
