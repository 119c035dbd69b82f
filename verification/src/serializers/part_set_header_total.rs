//! part_set_header.total read from a string or an integer, written as an integer.
//!
//! The reader is created for backwards compatibility: `total` was changed from a
//! string-quoted integer value into an integer value without quotes in Tendermint Core v0.34.0.

use vstd::prelude::*;
use vstd::string::StringExecFns;
use vstd::string::StringSliceAdditionalSpecFns;

use crate::decimal::{parse_integer, parse_unsigned};

verus! {

/// The message of a failed integer conversion, as `TryFromIntError` displays it.
pub open spec fn try_from_int_message() -> Seq<char> {
    "out of range integral type conversion attempted"@
}

/// Reads the total from an integer: it must fit in a `u32`.
pub fn visit_u64(v: u64) -> (r: Result<u32, String>)
    ensures
        v <= u32::MAX ==> r == Ok::<u32, String>(v as u32),
        v > u32::MAX ==> (r matches Err(m) && m@ == "part_set_header.total "@
            + try_from_int_message()),
{
    if v <= 0xffff_ffff {
        Ok(v as u32)
    } else {
        let mut m = "part_set_header.total ".to_owned();
        m.append("out of range integral type conversion attempted");
        Err(m)
    }
}

/// Reads the total from a string, as `str::parse::<u32>` reads it.
pub fn visit_str(v: &str) -> (r: Result<u32, String>)
    ensures
        match parse_integer(v.spec_bytes(), false, u32::MAX as int) {
            Ok(n) => r == Ok::<u32, String>(n as u32),
            Err(e) => r matches Err(m) && m@ == "part_set_header.total "@ + e.spec_message(),
        },
{
    let b = v.as_bytes();
    assert(b@.subrange(0, b@.len() as int) =~= b@);
    match parse_unsigned(b, 0, b.len(), 0xffff_ffff) {
        Ok(n) => Ok(n as u32),
        Err(e) => {
            let mut m = "part_set_header.total ".to_owned();
            m.append(e.message());
            Err(m)
        },
    }
}

} // verus!
