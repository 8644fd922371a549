# meshtastic

Message and enumeration types of the Meshtastic mesh radio protocol, written in Verus.

- `src/` is the verified library. Every protocol enumeration carries its ProtoBuf names and
  numbers as spec functions (`str_name`, `value`), and its conversions (`as_str_name`,
  `from_str_name`, `from_i32`, `is_valid`, `i32::from`, `Default`) are proved against them.
  The laws `lemma_named`, `lemma_with_value`, `lemma_injective` and `lemma_read_after_write`
  state that names and numbers identify variants one to one and that each conversion undoes
  the other. The message types hold their fields as plain values; their enumeration getters
  and setters and their optional-field getters are proved too. Top-level types are
  re-exported from the crate root, nested ones live in modules named after their message
  (`channel::Role`, `config::device_config::Role`, ...).
- `app/` holds the same types in the form that `prost` encodes and `serde` serializes
  (`wire`), the messages that carry floating-point fields, and conversions between the two
  (`convert`).
- `tests/` runs every conversion on every variant and the message accessors on concrete
  values.

Two renamings: variants called `None` in the protocol are `NoneValue`, and fields called
`type` are `type_` (with getter `type_()` and setter `set_type`).

The enumerations have no explicit discriminants; their variants are declared in the order of
their ProtoBuf numbers, so the derived ordering follows the numbers, but an `as i32` cast gives
the position of a variant, not its number. Use `i32::from(e)` for the number.
