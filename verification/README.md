# applink

Codecs, routing rules and message models of the WizziLab Applink service,
verified with Verus.

- `src/` is the verified library: device identifiers (`common`,
  `client::codec::uid`), device file readers (`xml`), report, remote control,
  macro and gateway control messages (`codec`, `client::codec`), the HTTP API
  paths and answers (`http`, `client::http`), and the decisions of the MQTT
  and AMQP feeds (`mqtt`, `client::mqtt`, `client::amqp`). Calls into `hex`
  and a few standard functions stand behind trusted wrappers whose contracts
  are stated in their doc comments.
- `app/` holds what the library leaves to ordinary Rust: the serde forms of
  the messages, and the `reqwest`, `rumqttc` and `lapin` clients that do the
  I/O and follow the library's decisions.
- `tests/` runs the library on concrete values.
