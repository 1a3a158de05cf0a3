//! Per-device configuration resolved from the object store, and the error
//! taxonomy of that resolution. The fetch itself is I/O and lives in the
//! unverified shell; the library states which object key is read and what a
//! well-formed configuration holds.

use vstd::prelude::*;

use crate::decimal::{dec_digits, push_dec};
use crate::messages::Location;

verus! {

/// Station configuration fetched from the object store.
#[derive(Clone, Debug)]
pub struct StationConfig {
    /// Unique identifier for the device
    pub device_id: u16,
    /// Device location
    pub location: Location,
    /// Forest area identifier
    pub forest_area: String,
}

/// Error taxonomy of the device-config resolver.
#[derive(Clone, Copy, Debug, PartialEq, Eq, Structural)]
pub enum ConfigError {
    /// The object `{device_id}.json` is absent from the store.
    NotFound,
    /// The object does not parse as the expected schema.
    Malformed,
    /// Any underlying I/O failure.
    TransportError,
}

/// The object key read for a device: its id in decimal, then `.json`.
pub open spec fn config_key(device_id: u16) -> Seq<u8> {
    dec_digits(device_id as nat) + seq!['.' as u8, 'j' as u8, 's' as u8, 'o' as u8, 'n' as u8]
}

/// The object key under which a device's configuration is stored.
pub fn config_object_key(device_id: u16) -> (r: Vec<u8>)
    ensures
        r@ == config_key(device_id),
{
    let mut r: Vec<u8> = Vec::new();
    push_dec(device_id as u64, &mut r);
    r.push('.' as u8);
    r.push('j' as u8);
    r.push('s' as u8);
    r.push('o' as u8);
    r.push('n' as u8);
    proof {
        assert(r@ =~= config_key(device_id));
    }
    r
}

} // verus!
