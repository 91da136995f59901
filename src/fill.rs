//! The fill engine: computes every row's digest in place, with the rows cut
//! into disjoint contiguous chunks, one per worker.
use crate::backend::{digest_of, Backend, HashError};
use crate::table::Row;
use rayon::slice::ParallelSliceMut;
use rayon::iter::ParallelIterator;
use vstd::prelude::*;

verus! {

/// `new` is `old` with every row's digest computed by `backend` under `salt`
/// and every passcode kept.
pub open spec fn is_filled(new: Seq<Row>, old: Seq<Row>, salt: Seq<u8>, backend: Backend) -> bool {
    &&& new.len() == old.len()
    &&& forall|i: int| 0 <= i < new.len() ==> (#[trigger] new[i]).0 == old[i].0
    &&& forall|i: int|
        0 <= i < new.len() ==> (#[trigger] new[i]).1@ == digest_of(backend, old[i].0@, salt)
}

/// `new` holds the passcodes of `old`, in the same order.
pub open spec fn keeps_passcodes(new: Seq<Row>, old: Seq<Row>) -> bool {
    &&& new.len() == old.len()
    &&& forall|i: int| 0 <= i < new.len() ==> (#[trigger] new[i]).0 == old[i].0
}

/// Fills the digests of `rows` one after the other. It fails exactly for an
/// out-of-range Argon2id configuration on a non-empty slice, and then stops;
/// the passcodes are kept whatever happens.
pub fn fill_rows(rows: &mut [Row], salt: &[u8; 32], backend: &Backend) -> (r: Result<(), HashError>)
    ensures
        keeps_passcodes(final(rows)@, old(rows)@),
        r is Ok ==> is_filled(final(rows)@, old(rows)@, salt@, *backend),
        backend is Pbkdf2 ==> r is Ok,
        backend matches Backend::Argon2id(h) && h.wf() ==> r is Ok,
        backend matches Backend::Argon2id(h) && !h.wf() && old(rows)@.len() > 0 ==> r is Err,
{
    let n = rows.len();
    let mut i: usize = 0;
    while i < n
        invariant
            n == old(rows)@.len(),
            i <= n,
            keeps_passcodes(rows@, old(rows)@),
            backend matches Backend::Argon2id(h) && !h.wf() ==> i == 0,
            forall|k: int|
                0 <= k < i ==> (#[trigger] rows@[k]).1@ == digest_of(*backend, old(rows)@[k].0@, salt@),
        decreases n - i,
    {
        let passcode = rows[i].0;
        let mut digest = [0u8; 32];
        match backend.hash_into(&mut digest, &passcode, salt) {
            Ok(()) => {},
            Err(e) => {
                return Err(e);
            },
        }
        rows[i] = (passcode, digest);
        i = i + 1;
    }
    Ok(())
}

/// Relies on rayon's `par_chunks_mut` and `try_for_each`: the rows are cut
/// into disjoint chunks of `chunk_len` rows (the last may be shorter),
/// `fill_rows` runs once on each chunk that is started, and the result is
/// `Ok` exactly when every chunk's run returned `Ok`; when every
/// chunk's run fails, the result is an error. `par_chunks_mut` panics
/// on a chunk length of 0.
#[verifier::external_body]
fn par_fill_chunks(table: &mut [Row], chunk_len: usize, salt: &[u8; 32], backend: &Backend) -> (r:
    Result<(), HashError>)
    requires
        chunk_len > 0,
    ensures
        keeps_passcodes(final(table)@, old(table)@),
        r is Ok ==> is_filled(final(table)@, old(table)@, salt@, *backend),
        backend is Pbkdf2 ==> r is Ok,
        backend matches Backend::Argon2id(h) && h.wf() ==> r is Ok,
        backend matches Backend::Argon2id(h) && !h.wf() && old(table)@.len() > 0 ==> r is Err,
{
    table.par_chunks_mut(chunk_len).try_for_each(|chunk| fill_rows(chunk, salt, backend))
}

/// Relies on rayon's `current_num_threads`: the number of threads of the
/// current pool. Nothing is assumed of its value.
#[verifier::external_body]
fn available_workers() -> (r: usize) {
    ::rayon::current_num_threads()
}

/// The length of each chunk when `len` rows are shared among `workers`
/// workers: the least that gives no worker more than one chunk, and at least 1.
pub fn chunk_len_for(len: usize, workers: usize) -> (r: usize)
    ensures
        r >= 1,
        workers >= 1 ==> r * workers >= len,
        workers >= 1 && len >= 1 ==> (r - 1) * workers < len,
{
    if workers == 0 || len == 0 {
        return 1;
    }
    let q = len / workers;
    let m = len % workers;
    assert(m != 0 ==> q < len) by (nonlinear_arith)
        requires
            workers >= 1,
            q == len / workers,
            m == len % workers,
    {
        assert(len == q * workers + m);
        if m != 0 && q >= len {
            assert(q * workers >= q);
        }
    }
    let r = if m == 0 {
        q
    } else {
        q + 1
    };
    assert(r >= 1 && r * workers >= len && (r - 1) * workers < len) by (nonlinear_arith)
        requires
            workers >= 1,
            len >= 1,
            q == len / workers,
            m == len % workers,
            m == 0 ==> r == q,
            m != 0 ==> r == q + 1,
    {
        assert(len == q * workers + m);
    }
    r
}

/// Fills every row's digest with the rows cut into one contiguous chunk per
/// worker (`workers` of 0 is taken as 1). The digests do not depend on the
/// number of workers. A failure on any row fails the whole call, and the
/// table is then to be discarded.
pub fn fill_table_with_workers(
    table: &mut [Row],
    salt: &[u8; 32],
    backend: &Backend,
    workers: usize,
) -> (r: Result<(), HashError>)
    ensures
        keeps_passcodes(final(table)@, old(table)@),
        r is Ok ==> is_filled(final(table)@, old(table)@, salt@, *backend),
        backend is Pbkdf2 ==> r is Ok,
        backend matches Backend::Argon2id(h) && h.wf() ==> r is Ok,
        backend matches Backend::Argon2id(h) && !h.wf() && old(table)@.len() > 0 ==> r is Err,
{
    let chunk_len = chunk_len_for(table.len(), workers);
    par_fill_chunks(table, chunk_len, salt, backend)
}

/// Fills every row's digest, with one chunk of rows per available worker.
pub fn fill_table(table: &mut [Row], salt: &[u8; 32], backend: &Backend) -> (r: Result<
    (),
    HashError,
>)
    ensures
        keeps_passcodes(final(table)@, old(table)@),
        r is Ok ==> is_filled(final(table)@, old(table)@, salt@, *backend),
        backend is Pbkdf2 ==> r is Ok,
        backend matches Backend::Argon2id(h) && h.wf() ==> r is Ok,
        backend matches Backend::Argon2id(h) && !h.wf() && old(table)@.len() > 0 ==> r is Err,
{
    let workers = available_workers();
    fill_table_with_workers(table, salt, backend, workers)
}

/// Two fills with the same salt and backend, of tables with the same
/// passcodes, give the same digests byte for byte, whichever way the rows
/// were shared among workers.
pub proof fn lemma_fill_deterministic(
    a: Seq<Row>,
    b: Seq<Row>,
    old_a: Seq<Row>,
    old_b: Seq<Row>,
    salt: Seq<u8>,
    backend: Backend,
)
    requires
        is_filled(a, old_a, salt, backend),
        is_filled(b, old_b, salt, backend),
        keeps_passcodes(old_a, old_b),
    ensures
        a.len() == b.len(),
        forall|i: int| 0 <= i < a.len() ==> (#[trigger] a[i]).0 == b[i].0 && a[i].1@ == b[i].1@,
{
    assert forall|i: int| 0 <= i < a.len() implies (#[trigger] a[i]).0 == b[i].0 && a[i].1@
        == b[i].1@ by {
        assert(old_a[i].0 == old_b[i].0);
    }
}

} // verus!
