//! Version 0: Argon2i, three passes over 512 MiB in two lanes.

use vstd::prelude::*;

use super::ParameterSet;
use super::Variant;

verus! {

pub const PASSES: u32 = 3;

pub const LANES: u32 = 2;

/// Memory cost in KiB.
pub const MEMORY: u32 = 524_288;

pub const VARIANT: Variant = Variant::Argon2i;

pub const SALT_LEN: usize = 14;

pub const HASH_LEN: usize = 16;

pub const REHASH: bool = false;

pub const VERSION: u16 = 0;

/// The constants of this version as one parameter set.
pub open spec fn spec_parameter_set() -> ParameterSet {
    ParameterSet {
        version: VERSION,
        passes: PASSES,
        lanes: LANES,
        memory_kb: MEMORY,
        variant: VARIANT,
        salt_len: SALT_LEN,
        hash_len: HASH_LEN,
        needs_rehash: REHASH,
    }
}

/// The constants of this version as one parameter set.
#[verifier::when_used_as_spec(spec_parameter_set)]
pub fn parameter_set() -> (set: ParameterSet)
    ensures
        set == spec_parameter_set(),
{
    ParameterSet {
        version: VERSION,
        passes: PASSES,
        lanes: LANES,
        memory_kb: MEMORY,
        variant: VARIANT,
        salt_len: SALT_LEN,
        hash_len: HASH_LEN,
        needs_rehash: REHASH,
    }
}

} // verus!
