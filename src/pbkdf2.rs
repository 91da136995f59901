//! Tables filled with PBKDF2-HMAC-SHA256 digests.
use crate::backend::{pbkdf2_sha256, Backend};
use crate::fill::is_filled;
use crate::table::Row;
use vstd::prelude::*;

verus! {

/// Writes the PBKDF2-HMAC-SHA256 digest of `passcode` under `salt`, with
/// `iter_count` iterations, into `output_buffer`.
pub fn hash(output_buffer: &mut [u8; 32], passcode: &[u8; 4], salt: &[u8; 32], iter_count: u32)
    ensures
        final(output_buffer)@ == pbkdf2_sha256(passcode@, salt@, iter_count as nat),
{
    crate::backend::pbkdf2_sha256_into(output_buffer, passcode, salt, iter_count);
}

/// Fills every row's digest with PBKDF2-HMAC-SHA256 under `salt`, with
/// `iter_count` iterations, the rows shared among the available workers.
pub fn fill_table(table: &mut [Row], salt: &[u8; 32], iter_count: u32)
    ensures
        is_filled(final(table)@, old(table)@, salt@, Backend::Pbkdf2 { iter_count }),
{
    let backend = Backend::Pbkdf2 { iter_count };
    let r = crate::fill::fill_table(table, salt, &backend);
    assert(r is Ok);
}

} // verus!
