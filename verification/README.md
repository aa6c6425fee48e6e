# ew_translator

The library behind a popup translator for X11: it resolves the settings
(command line, environment, optional TOML config, defaults), plans the HTTP
request for the selected translation source (Google Translate, Google Gemini,
OpenRouter or an OpenAI-compatible Chat Completions API) and reads the
provider's answer or error. The functions in `src/` are verified with Verus
against their contracts, except a few trusted wrappers around `serde_json`,
URL parsing, status reason phrases and `String::push`.

- `src/text.rs`: character-level text operations (trimming, case, word
  squeezing, decimal numbers) with their specifications.
- `src/settings.rs`: settings layers, resolution and validation, with the
  precedence laws.
- `src/json.rs`: JSON documents as the response parsers read them, and JSON
  pointer steps.
- `src/translator.rs`: request plans, response reading and error messages.
- `app/`: the command-line program around the library: argument and
  environment reading, the config file, the global shortcut, the selection
  and the HTTP client.
