# ec_acpi

The protocol by which the methods of an embedded controller are evaluated through its ACPI test
driver on Windows, verified with Verus.

- `src/` is the verified library: the input and output buffers of the driver, the values that
  methods return, the search for the device, and the operations on thermal sensors and fans, the
  battery, the real-time clock and USB Type-C connectors. Each operation is a pair of functions:
  one gives the bytes of the request, the other reads the reply. `framing`, `packing`, `requests`
  and `replies` hold what is proved of the formats and operations as a whole.
- `app/` makes the system calls between the two halves and converts to the types of the program
  that embeds it.
- `tests/` runs the library on concrete buffers.

What is believed without proof is the contract of each function marked `external_body` and of each
`assume_specification` in `src/text.rs` and `src/guid.rs`: conversions of text by the standard
library, and the byte order of GUIDs by the `uuid` crate.
