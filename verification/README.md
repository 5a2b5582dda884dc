# ccg_bot

Local, exhaustively matchable counterparts of Discord's application-command
model types, with the rules that decode a command option from JSON, verified
with Verus.

- `src/` is the verified library. It holds the types as plain values
  (identifiers as `u64`, colours as `u32`, permission sets as their bits, a
  JSON document as a `JsonValue` tree) and proves what decoding gives for
  every input.
  - `kinds.rs`: the number-encoded enumerations (command type, option type,
    channel type) and their encode/decode round trips.
  - `json.rs`: the JSON tree and member lookup (the last member with a key
    wins, as in a map built by inserting the members in order).
  - `interaction.rs`: `CommandInteraction` and `CommandInteraction::from_json`,
    with the exact result and the exact error for every input.
  - `resolved.rs`: attachments, roles, role tags, partial channels and the
    resolved values of an option.
  - `premium_subscriber.rs`: the `null`-valued encoding of a role's booster
    tag, and its round trip.
- `app/` carries the serde derives on copies of these types, converts
  `serde_json::Value` to and from the library's tree, and converts serenity's
  model types field by field.
- `tests/` exercises the library on concrete values.
