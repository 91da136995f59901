//! The two key-derivation backends behind one single-row contract: given a
//! four-byte passcode and a 32-byte salt, produce a 32-byte digest.
use sha2::Sha256;
use vstd::prelude::*;

verus! {

#[verifier::external_type_specification]
#[verifier::external_body]
pub struct ExArgon2Error(::argon2::Error);

#[verifier::external_type_specification]
#[verifier::external_body]
pub struct ExArgon2Params(::argon2::Params);

/// The 32 bytes of PBKDF2-HMAC-SHA256 of `password` under `salt`, with
/// `rounds` iterations.
pub uninterp spec fn pbkdf2_sha256(password: Seq<u8>, salt: Seq<u8>, rounds: nat) -> Seq<u8>;

/// The 32 bytes of Argon2id (version 0x13) of `password` under `salt`, with
/// the given memory cost (KiB), time cost and lane count.
pub uninterp spec fn argon2id(
    password: Seq<u8>,
    salt: Seq<u8>,
    m_cost: nat,
    t_cost: nat,
    p_cost: nat,
) -> Seq<u8>;

/// The Argon2 parameters that argon2's `Params::new` accepts: at least eight
/// KiB of memory and eight per lane, at least one pass, between 1 and
/// 2^24 - 1 lanes, and an output of 4 to 2^32 - 1 bytes.
pub open spec fn argon2_params_ok(m_cost: u32, t_cost: u32, p_cost: u32, output_len: usize) -> bool {
    &&& m_cost >= 8
    &&& m_cost >= 8 * p_cost
    &&& t_cost >= 1
    &&& 1 <= p_cost <= 0xFF_FFFF
    &&& 4 <= output_len <= 0xFFFF_FFFF
}

/// Relies on pbkdf2's `pbkdf2_hmac::<Sha256>`: it fills `out` with the
/// PBKDF2-HMAC-SHA256 output, which depends on its arguments alone. HMAC
/// takes keys of any length, so the call does not fail.
#[verifier::external_body]
pub(crate) fn pbkdf2_sha256_into(out: &mut [u8; 32], passcode: &[u8; 4], salt: &[u8; 32], rounds: u32)
    ensures
        final(out)@ == pbkdf2_sha256(passcode@, salt@, rounds as nat),
{
    ::pbkdf2::pbkdf2_hmac::<Sha256>(passcode, salt, rounds, out);
}

/// Relies on argon2's `Params::new` (with an output length): it returns `Ok`
/// exactly on the parameters of `argon2_params_ok`. It computes `8 * p_cost`
/// before it bounds `p_cost`, hence the bound here.
#[verifier::external_body]
fn new_argon2_params(m_cost: u32, t_cost: u32, p_cost: u32, output_len: usize) -> (r: Result<
    ::argon2::Params,
    ::argon2::Error,
>)
    requires
        p_cost <= u32::MAX / 8,
    ensures
        r is Ok <==> argon2_params_ok(m_cost, t_cost, p_cost, output_len),
{
    ::argon2::Params::new(m_cost, t_cost, p_cost, Some(output_len))
}

/// Relies on argon2's `Params::new`, `Argon2::new` and
/// `Argon2::hash_password_into`, with Argon2id, version 0x13 and an output of
/// 32 bytes: on success `out` holds the digest, which depends on the
/// passcode, the salt and the three costs alone. The call fails exactly where
/// `Params::new` refuses the costs: with a four-byte password, a 32-byte salt
/// (at least the 8 required), an output of the 32 bytes that the parameters
/// name and memory allocated to the block count, `hash_password_into` has no
/// other error path.
#[verifier::external_body]
fn argon2id_into(
    out: &mut [u8; 32],
    passcode: &[u8; 4],
    salt: &[u8; 32],
    m_cost: u32,
    t_cost: u32,
    p_cost: u32,
) -> (r: Result<(), ::argon2::Error>)
    requires
        p_cost <= u32::MAX / 8,
    ensures
        r is Ok ==> final(out)@ == argon2id(
            passcode@,
            salt@,
            m_cost as nat,
            t_cost as nat,
            p_cost as nat,
        ),
        r is Ok <==> argon2_params_ok(m_cost, t_cost, p_cost, 32),
{
    let params = ::argon2::Params::new(m_cost, t_cost, p_cost, Some(32))?;
    let hasher = ::argon2::Argon2::new(
        ::argon2::Algorithm::Argon2id,
        ::argon2::Version::V0x13,
        params,
    );
    hasher.hash_password_into(passcode, salt, out)
}

/// Why a backend could not be built.
#[derive(Debug, Clone, Copy, PartialEq, Eq, Structural)]
pub enum ConfigError {
    /// The Argon2 costs or output length are out of the accepted ranges.
    InvalidParams,
    /// The output length is valid for Argon2 but is not the digest size of 32.
    OutputLength,
}

/// Why a row's digest could not be computed.
#[derive(Debug, Clone, Copy, PartialEq, Eq, Structural)]
pub enum HashError {
    /// The Argon2 implementation reported an error.
    Argon2,
}

/// A validated Argon2id configuration with 32-byte output.
#[derive(Debug, Clone, Copy, PartialEq, Eq, Structural)]
pub struct Argon2idHasher {
    pub m_cost: u32,
    pub t_cost: u32,
    pub p_cost: u32,
}

impl Argon2idHasher {
    pub open spec fn wf(&self) -> bool {
        argon2_params_ok(self.m_cost, self.t_cost, self.p_cost, 32)
    }

    /// Validates the Argon2id parameters once, before any hashing: costs and
    /// output length that argon2 refuses give `InvalidParams`; an accepted
    /// output length other than 32 gives `OutputLength`.
    pub fn new(m_cost: u32, t_cost: u32, p_cost: u32, output_len: usize) -> (r: Result<
        Argon2idHasher,
        ConfigError,
    >)
        ensures
            r is Ok <==> argon2_params_ok(m_cost, t_cost, p_cost, output_len) && output_len == 32,
            r is Ok ==> r->Ok_0 == (Argon2idHasher { m_cost, t_cost, p_cost }) && r->Ok_0.wf(),
            r is Err ==> (r->Err_0 == ConfigError::InvalidParams <==> !argon2_params_ok(
                m_cost,
                t_cost,
                p_cost,
                output_len,
            )),
            m_cost == 0 || t_cost == 0 || output_len == 0 ==> r == Err::<
                Argon2idHasher,
                ConfigError,
            >(ConfigError::InvalidParams),
    {
        if p_cost > u32::MAX / 8 {
            return Err(ConfigError::InvalidParams);
        }
        match new_argon2_params(m_cost, t_cost, p_cost, output_len) {
            Err(_) => Err(ConfigError::InvalidParams),
            Ok(_) => {
                if output_len != 32 {
                    Err(ConfigError::OutputLength)
                } else {
                    Ok(Argon2idHasher { m_cost, t_cost, p_cost })
                }
            },
        }
    }
}

/// A key-derivation backend.
#[derive(Debug, Clone, Copy, PartialEq, Eq, Structural)]
pub enum Backend {
    /// PBKDF2-HMAC-SHA256 with the given iteration count.
    Pbkdf2 { iter_count: u32 },
    /// Argon2id with a validated configuration.
    Argon2id(Argon2idHasher),
}

/// The digest that `backend` gives for `passcode` under `salt`.
pub open spec fn digest_of(backend: Backend, passcode: Seq<u8>, salt: Seq<u8>) -> Seq<u8> {
    match backend {
        Backend::Pbkdf2 { iter_count } => pbkdf2_sha256(passcode, salt, iter_count as nat),
        Backend::Argon2id(h) => argon2id(
            passcode,
            salt,
            h.m_cost as nat,
            h.t_cost as nat,
            h.p_cost as nat,
        ),
    }
}

/// Builds a backend: PBKDF2 with `iter_count` when `argon2` is `None`, else
/// Argon2id with the (memory cost, time cost, lanes, output length) given.
pub fn construct_backend(iter_count: u32, argon2: Option<(u32, u32, u32, usize)>) -> (r: Result<
    Backend,
    ConfigError,
>)
    ensures
        argon2 is None ==> r == Ok::<Backend, ConfigError>(Backend::Pbkdf2 { iter_count }),
        argon2 matches Some((m, t, p, len)) ==> match r {
            Ok(b) => argon2_params_ok(m, t, p, len) && len == 32 && b == Backend::Argon2id(
                Argon2idHasher { m_cost: m, t_cost: t, p_cost: p },
            ),
            Err(e) => !argon2_params_ok(m, t, p, len) <==> e == ConfigError::InvalidParams,
        },
        argon2 matches Some((m, t, p, len)) ==> (r is Ok <==> argon2_params_ok(m, t, p, len) && len
            == 32),
        argon2 matches Some((m, t, p, len)) && (m == 0 || t == 0 || len == 0) ==> r == Err::<
            Backend,
            ConfigError,
        >(ConfigError::InvalidParams),
{
    match argon2 {
        None => Ok(Backend::Pbkdf2 { iter_count }),
        Some((m, t, p, len)) => match Argon2idHasher::new(m, t, p, len) {
            Ok(h) => Ok(Backend::Argon2id(h)),
            Err(e) => Err(e),
        },
    }
}

impl Backend {
    /// Computes one row's digest into `out`. PBKDF2 never fails; Argon2id
    /// fails exactly where the configuration is out of range.
    pub fn hash_into(&self, out: &mut [u8; 32], passcode: &[u8; 4], salt: &[u8; 32]) -> (r: Result<
        (),
        HashError,
    >)
        ensures
            r is Ok ==> final(out)@ == digest_of(*self, passcode@, salt@),
            self is Pbkdf2 ==> r is Ok,
            self matches Backend::Argon2id(h) && !h.wf() ==> r is Err,
            self matches Backend::Argon2id(h) && h.wf() ==> r is Ok,
    {
        match self {
            Backend::Pbkdf2 { iter_count } => {
                pbkdf2_sha256_into(out, passcode, salt, *iter_count);
                Ok(())
            },
            Backend::Argon2id(h) => {
                if h.p_cost > u32::MAX / 8 {
                    return Err(HashError::Argon2);
                }
                match argon2id_into(out, passcode, salt, h.m_cost, h.t_cost, h.p_cost) {
                    Ok(()) => Ok(()),
                    Err(_) => Err(HashError::Argon2),
                }
            },
        }
    }
}

} // verus!
