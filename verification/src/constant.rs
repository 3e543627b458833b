use vstd::prelude::*;

verus! {

/// Seed tag for vault addresses: the ASCII bytes of "staking_vault".
pub const VAULT_SEED: [u8; 13] = [115, 116, 97, 107, 105, 110, 103, 95, 118, 97, 117, 108, 116];

/// Seed tag for configuration addresses: the ASCII bytes of "staking_config".
pub const STAKE_CONFIG_SEED: [u8; 14] = [
    115,
    116,
    97,
    107,
    105,
    110,
    103,
    95,
    99,
    111,
    110,
    102,
    105,
    103,
];

} // verus!
