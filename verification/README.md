# sprinkler_api

DoS prevention for distributed systems: agent threads detect anomalies and
notify master threads over TLS; master threads record what they hear.

- `src/` is the verified library (Verus):
  - `anomaly.rs`: the anomaly state machine (`Anomaly >> Anomaly` names a
    transition, `Anomaly >> AnomalyTransition` applies one, escalation and
    diminishing), with its laws as proof functions.
  - `proto.rs`: the wire format of agent messages (`compose_message`), the
    decoding of headers (`SprinklerProto::next_header`) and the relay's
    decision on a message body (`SprinklerProto::relay_action`), with the
    round-trip and delivery laws.
  - `builder.rs`: shared options, id assignment (with the law that builds
    get distinct ids), the choice of the sprinklers whose agents run on a
    host, and an agent's pause after a failed round.
  - `commcheck.rs`: one round of the communication check's master thread.
- `app/` is the program around it: threads, channels, sockets, TLS, logging
  and command-line handling.
- `tests/` runs the library on concrete values.
