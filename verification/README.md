# model_check

Checks whether the credentials, the protocol and the model that a provider is saved with
complete one minimal streaming request.

`src/` is a library that is verified with Verus. It decides everything about a check and does
no input or output of its own:

| module | what it decides |
| --- | --- |
| `models` | which model is asked for, and the reasoning effort in its name |
| `routes` | which kind of request a provider calls for, or why there is none |
| `urls`, `bodies`, `http` | addresses, bodies and headers |
| `messages`, `codex`, `gemini` | the three kinds of requests |
| `stream`, `exchange` | what the answer means, line by line and event by event |
| `results` | the result that is shown, and the category of an error |
| `json`, `text`, `types` | the values that all of them speak of |
| `laws` | what holds of them together, for all inputs |

`app/` runs the checks: it sends the requests with `reqwest`, hands the answers back to the
library, and serializes the results. What it needs from the application around it is the trait
`Host`: its providers and what its adapters read off them, its HTTP client, its translations of
request bodies, the way it words errors, how it introduces itself to GitHub Copilot, and the
texts below.

Three texts that a request in Anthropic's format carries stand neither in `src/` nor in `app/`:
the model that is tested when a provider names none, the beta features that are asked for, and
the user agent. They are the fields of `AnthropicProfile`, which `Host` supplies; the contracts
say where each of them goes and leave open what it is.

Five functions leave the verified code; each has a contract that is documented but not proved:

| function | outside call |
| --- | --- |
| `json::value_from_str` | `serde_json::from_str` |
| `json::value_parts` | the variants of `serde_json::Value` |
| `messages::new_request_id` | `uuid::Uuid::new_v4` |
| `results::unix_now` | `chrono::Utc::now` |
| `stream::text_from_utf8_lossy` | `String::from_utf8_lossy` |
