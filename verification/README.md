# switcher

A home-automation hub: an MQTT 3.1/5.0 client and broker, an HTTP client
and server with websockets, and a Zigbee concentrator over EZSP/ASH, tied
together by devices, attribute routing and automations written in a small
expression language.

`src/` is the library, verified with Verus: every public function states in
its contract what it returns or changes, over mathematical models of its
types, and the laws that span functions stand as public proof functions.

- `mqtt/`: the packet codec (`wire.rs` models the wire format, `laws.rs`
  holds the round-trip and frame laws).
- `http.rs`, `websocket.rs`: HTTP messages and headers, websocket frames and
  the handshake.
- `zigbee/`: ASH framing, EZSP frames, ZCL and ZDP, with their laws.
- `frames.rs`: buffered, non-blocking frame reading and writing.
- `tokenizer.rs`: the lexer and the reverse Polish notation of expressions.
- `switcher/`: the evaluator of automation expressions (`eval.rs`), reading
  them from text (`expr.rs`, the evaluator as the tokenizer's `Eval`),
  actions, routing of attribute values between services, devices, the
  broker's sessions and the coordinator's decisions.

`app/` is the program around the library: sockets, files, threads and the
configuration (read with serde, its actions' expressions read by the
library), none of which is verified. `tests/` runs
the library on concrete values.
