use bench_pwd_hash::backend::{construct_backend, Argon2idHasher, Backend, ConfigError, HashError};
use bench_pwd_hash::fill::{chunk_len_for, fill_rows, fill_table, fill_table_with_workers};
use bench_pwd_hash::table::gen_table_between;
use bench_pwd_hash::{argon2, pbkdf2};

fn small_argon2() -> Argon2idHasher {
    Argon2idHasher::new(8, 1, 1, 32).unwrap()
}

const GOLDEN: [u8; 32] = [
    0x59, 0x84, 0x17, 0xb6, 0xbf, 0xad, 0x3f, 0x83, 0x47, 0x5b, 0xe5, 0xdb, 0x7e, 0xd7, 0xd4, 0x39,
    0x62, 0xfa, 0x26, 0x7a, 0x14, 0x1a, 0x0a, 0x26, 0xd3, 0x98, 0xbe, 0xd0, 0x5b, 0x8b, 0xa1, 0x16,
];

#[test]
fn pbkdf2_golden_value() {
    let mut out = [0u8; 32];
    pbkdf2::hash(&mut out, &[1, 0, 0, 0], &[0u8; 32], 1000);
    assert_eq!(out, GOLDEN);
}

#[test]
fn pbkdf2_fill_matches_golden_row() {
    let mut t = gen_table_between(1, 3);
    pbkdf2::fill_table(&mut t, &[0u8; 32], 1000);
    assert_eq!(t[0].0, [1, 0, 0, 0]);
    assert_eq!(t[0].1, GOLDEN);
    assert_eq!(t[1].0, [2, 0, 0, 0]);
}

#[test]
fn pbkdf2_fill_is_deterministic() {
    let salt = [7u8; 32];
    let mut a = gen_table_between(100, 140);
    let mut b = gen_table_between(100, 140);
    pbkdf2::fill_table(&mut a, &salt, 10);
    pbkdf2::fill_table(&mut b, &salt, 10);
    assert_eq!(a, b);
    assert!(a.iter().all(|r| r.1 != [0u8; 32]));
}

#[test]
fn argon2_fill_is_deterministic() {
    let salt = [9u8; 32];
    let h = small_argon2();
    let mut a = gen_table_between(100, 110);
    let mut b = gen_table_between(100, 110);
    argon2::fill_table(&mut a, &salt, &h);
    argon2::fill_table(&mut b, &salt, &h);
    assert_eq!(a, b);
    assert!(a.iter().all(|r| r.1 != [0u8; 32]));
}

#[test]
fn distinct_passcodes_give_distinct_digests() {
    let salt = [3u8; 32];
    let mut t = gen_table_between(1, 50);
    pbkdf2::fill_table(&mut t, &salt, 5);
    let mut u = gen_table_between(1, 20);
    argon2::fill_table(&mut u, &salt, &small_argon2());
    for rows in [&t, &u] {
        for i in 0..rows.len() {
            for j in i + 1..rows.len() {
                assert_ne!(rows[i].1, rows[j].1);
            }
        }
    }
}

#[test]
fn backends_diverge() {
    let salt = [0u8; 32];
    let passcode = [1u8, 0, 0, 0];
    let mut p = [0u8; 32];
    let mut a = [0u8; 32];
    pbkdf2::hash(&mut p, &passcode, &salt, 1000);
    argon2::hash(&mut a, &passcode, &salt, &small_argon2());
    assert_ne!(p, a);
    assert_ne!(a, [0u8; 32]);
}

#[test]
fn argon2_hash_matches_fill() {
    let salt = [5u8; 32];
    let h = small_argon2();
    let mut t = gen_table_between(40, 44);
    argon2::fill_table(&mut t, &salt, &h);
    for r in &t {
        let mut out = [0u8; 32];
        argon2::hash(&mut out, &r.0, &salt, &h);
        assert_eq!(out, r.1);
    }
}

#[test]
fn workers_do_not_change_digests() {
    let salt = [11u8; 32];
    let backend = Backend::Pbkdf2 { iter_count: 3 };
    let base = gen_table_between(500, 600);
    let mut one = base.clone();
    let mut many = base.clone();
    let mut seq = base.clone();
    let mut pool = base.clone();
    assert_eq!(fill_table_with_workers(&mut one, &salt, &backend, 1), Ok(()));
    assert_eq!(fill_table_with_workers(&mut many, &salt, &backend, 7), Ok(()));
    assert_eq!(fill_rows(&mut seq, &salt, &backend), Ok(()));
    assert_eq!(fill_table(&mut pool, &salt, &backend), Ok(()));
    assert_eq!(one, many);
    assert_eq!(one, seq);
    assert_eq!(one, pool);
    let a = Backend::Argon2id(small_argon2());
    let mut x = gen_table_between(1, 9);
    let mut y = x.clone();
    assert_eq!(fill_table_with_workers(&mut x, &salt, &a, 1), Ok(()));
    assert_eq!(fill_table_with_workers(&mut y, &salt, &a, 4), Ok(()));
    assert_eq!(x, y);
}

#[test]
fn argon2_config_rejected() {
    assert_eq!(Argon2idHasher::new(0, 1, 1, 32), Err(ConfigError::InvalidParams));
    assert_eq!(Argon2idHasher::new(8, 0, 1, 32), Err(ConfigError::InvalidParams));
    assert_eq!(Argon2idHasher::new(8, 1, 1, 0), Err(ConfigError::InvalidParams));
    assert_eq!(Argon2idHasher::new(8, 1, 0, 32), Err(ConfigError::InvalidParams));
    assert_eq!(Argon2idHasher::new(15, 1, 2, 32), Err(ConfigError::InvalidParams));
    assert_eq!(Argon2idHasher::new(u32::MAX, 1, u32::MAX, 32), Err(ConfigError::InvalidParams));
    assert_eq!(Argon2idHasher::new(8, 1, 1, 16), Err(ConfigError::OutputLength));
    assert_eq!(
        Argon2idHasher::new(7168, 5, 1, 32),
        Ok(Argon2idHasher { m_cost: 7168, t_cost: 5, p_cost: 1 })
    );
}

#[test]
fn construct_backend_variants() {
    assert_eq!(construct_backend(1000, None), Ok(Backend::Pbkdf2 { iter_count: 1000 }));
    assert_eq!(
        construct_backend(0, Some((16, 2, 2, 32))),
        Ok(Backend::Argon2id(Argon2idHasher { m_cost: 16, t_cost: 2, p_cost: 2 }))
    );
    assert_eq!(construct_backend(0, Some((0, 2, 1, 32))), Err(ConfigError::InvalidParams));
    assert_eq!(construct_backend(0, Some((8, 2, 1, 64))), Err(ConfigError::OutputLength));
}

#[test]
fn invalid_hasher_fails_the_fill() {
    let bad = Backend::Argon2id(Argon2idHasher { m_cost: 0, t_cost: 1, p_cost: 1 });
    let mut out = [0u8; 32];
    assert_eq!(bad.hash_into(&mut out, &[1, 0, 0, 0], &[0u8; 32]), Err(HashError::Argon2));
    let mut t = gen_table_between(1, 4);
    assert_eq!(fill_table(&mut t, &[0u8; 32], &bad), Err(HashError::Argon2));
    assert_eq!(t[2].0, [3, 0, 0, 0]);
    let mut s = gen_table_between(1, 4);
    assert_eq!(fill_rows(&mut s, &[0u8; 32], &bad), Err(HashError::Argon2));
    let mut empty = gen_table_between(2, 1);
    assert_eq!(fill_table(&mut empty, &[0u8; 32], &bad), Ok(()));
}

#[test]
fn valid_hasher_succeeds_through_backend() {
    let good = Backend::Argon2id(small_argon2());
    let mut out = [0u8; 32];
    assert_eq!(good.hash_into(&mut out, &[1, 0, 0, 0], &[0u8; 32]), Ok(()));
    let mut direct = [0u8; 32];
    argon2::hash(&mut direct, &[1, 0, 0, 0], &[0u8; 32], &small_argon2());
    assert_eq!(out, direct);
}

#[test]
fn non_positive_costs_rejected_at_construction() {
    for (m, t, len) in [(0u32, 3u32, 32usize), (64, 0, 32), (64, 3, 0)] {
        assert_eq!(Argon2idHasher::new(m, t, 1, len), Err(ConfigError::InvalidParams));
        assert_eq!(construct_backend(1, Some((m, t, 1, len))), Err(ConfigError::InvalidParams));
    }
}

#[test]
fn chunk_lengths() {
    assert_eq!(chunk_len_for(10, 3), 4);
    assert_eq!(chunk_len_for(9, 3), 3);
    assert_eq!(chunk_len_for(0, 3), 1);
    assert_eq!(chunk_len_for(5, 0), 1);
    assert_eq!(chunk_len_for(2, 8), 1);
    assert_eq!(chunk_len_for(usize::MAX, 2), usize::MAX / 2 + 1);
}
