//! Tables filled with Argon2id digests.
use crate::backend::{argon2id, Argon2idHasher, Backend};
use crate::fill::is_filled;
use crate::table::Row;
use vstd::prelude::*;

verus! {

/// Writes the Argon2id digest of `passcode` under `salt`, with the costs of
/// `hasher`, into `output_buffer`. The hasher must be one that construction
/// accepted.
pub fn hash(
    output_buffer: &mut [u8; 32],
    passcode: &[u8; 4],
    salt: &[u8; 32],
    hasher: &Argon2idHasher,
)
    requires
        hasher.wf(),
    ensures
        final(output_buffer)@ == argon2id(
            passcode@,
            salt@,
            hasher.m_cost as nat,
            hasher.t_cost as nat,
            hasher.p_cost as nat,
        ),
{
    let r = Backend::Argon2id(*hasher).hash_into(output_buffer, passcode, salt);
    assert(r is Ok);
}

/// Fills every row's digest with Argon2id under `salt`, with the costs of
/// `hasher`, the rows shared among the available workers. The hasher must be
/// one that construction accepted.
pub fn fill_table(table: &mut [Row], salt: &[u8; 32], hasher: &Argon2idHasher)
    requires
        hasher.wf(),
    ensures
        is_filled(final(table)@, old(table)@, salt@, Backend::Argon2id(*hasher)),
{
    let r = crate::fill::fill_table(table, salt, &Backend::Argon2id(*hasher));
    assert(r is Ok);
}

} // verus!
