//! JSON encodings of the protobuf types, as Tendermint's RPC writes them.
//!
//! Each module holds the text format of one kind of field; the glue that
//! plugs these formats into a serialization framework stands outside this
//! crate.

pub mod cow_str;
pub mod option_timestamp;
pub mod part_set_header_total;
pub mod time_duration;
pub mod timestamp;
pub mod txs;
