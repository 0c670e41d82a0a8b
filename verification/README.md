# chat_bridge

Verified conversions between the Responses API and the Chat Completions API.

A gateway takes a Responses request, sends a chat request to its backend and turns the answer into
a response. Both steps are pure functions, and Verus proves what they return for every input:

- `request::responses_to_chat`: a Responses request to a chat request
- `response::chat_to_responses`: the answer to a chat request to a response

Layout of `src/`:

- `protocols/`: the data of the two APIs; each type has a `deep_view`, its mathematical model
- `content.rs`: texts and images of messages
- `tools.rs`: the tools that a chat request offers
- `request.rs`, `response.rs`: the two conversions
- `text.rs`: operations on strings
- `laws.rs`: what holds of the conversions as a whole

Numbers such as the temperature are handed on and never computed with: `Single` holds the bit
pattern of a single-precision number. JSON documents such as a schema are held by their text.
