# tendermint_proto

Protobuf-defined data types of Tendermint and CometBFT, verified with Verus:

- `google::protobuf`: `Duration`, `Timestamp` and `Any`, their normalization,
  their JSON text (durations such as `"-90.002456301s"`, RFC 3339 timestamps,
  `Any` objects with Base64 values) and their conversions to the standard
  library's time types, given as plain parts.
- `serializers`: the logic of the serde helpers for protobuf fields
  (timestamps, transactions as hexadecimal strings, durations as nanoseconds,
  `part_set_header.total`, borrowed strings).
- `tendermint`, `cometbft`, `v0_34`, `v1_0`: message types, the names of
  enumeration values, and the routing of gRPC request paths to service
  methods.
- `rpc_abci`: RPC transactions and block data.
- `probe`: the RPC probe's requests, its plan and the quick probe.
- `encoding`, `decimal`, `text`, `arith`: hexadecimal and Base64 text (through
  `subtle-encoding`), decimal numbers, strings, and integer division.

`app/` holds what stays outside the verified library: serde impls, the
`DomainType` trait over prost messages, conversions to `std` and `chrono`
types, and the probe's file output.
