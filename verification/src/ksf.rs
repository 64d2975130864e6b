//! The key-stretching function: Argon2id, with a named or a custom cost
//! profile that is validated before any password is hashed.

use crate::error::{Error, ErrorKind, KSF_FAILURE_WORDS};
use argon2::{Algorithm, Version};
use vstd::prelude::*;

verus! {

/// `argon2::Algorithm`, with its three variants as they are.
#[verifier::external_type_specification]
pub struct ExAlgorithm(Algorithm);

/// `argon2::Version`, with its two variants as they are.
#[verifier::external_type_specification]
pub struct ExVersion(Version);

/// The context of the failure that an invalid cost combination gives.
pub const INVALID_KSF_CONTEXT: &'static str = "Invalid keyStretching (argon2id) combination";

/// A cost profile for the key-stretching function.
#[derive(Clone, Copy, Debug)]
pub enum KeyStretchingFunctionConfig {
    /// One pass over 2^21 - 1 KiB, four lanes.
    Rfc9106Recommended,
    /// Three passes over 2^18 KiB, four lanes. The profile used when none is
    /// named.
    LibsodiumModerate,
    /// Three passes over 2^16 KiB, four lanes.
    MemoryConstrained,
    /// Costs chosen by the caller: passes, memory in KiB, lanes.
    Custom { iterations: u32, memory: u32, parallelism: u32 },
}

/// The three costs of Argon2.
#[derive(Clone, Copy, Debug)]
pub struct Costs {
    pub iterations: u32,
    pub memory: u32,
    pub parallelism: u32,
}

/// The combinations of costs that Argon2 accepts: at least one pass, between
/// 1 and 2^24 - 1 lanes, and at least 8 KiB of memory for each lane.
pub open spec fn costs_accepted(c: Costs) -> bool {
    &&& c.iterations >= 1
    &&& 1 <= c.parallelism <= 0xFF_FFFF
    &&& c.memory >= 8
    &&& c.memory >= 8 * c.parallelism
}

/// The costs that a configuration stands for; with no configuration, those of
/// `LibsodiumModerate`.
pub open spec fn resolved_costs(config: Option<KeyStretchingFunctionConfig>) -> Costs {
    match config {
        Some(KeyStretchingFunctionConfig::Rfc9106Recommended) => Costs {
            iterations: 1,
            memory: 2097151,
            parallelism: 4,
        },
        Some(KeyStretchingFunctionConfig::MemoryConstrained) => Costs {
            iterations: 3,
            memory: 65536,
            parallelism: 4,
        },
        Some(KeyStretchingFunctionConfig::Custom { iterations, memory, parallelism }) => Costs {
            iterations,
            memory,
            parallelism,
        },
        Some(KeyStretchingFunctionConfig::LibsodiumModerate) | None => Costs {
            iterations: 3,
            memory: 262144,
            parallelism: 4,
        },
    }
}

/// The costs that Argon2 takes when it is given none.
pub open spec fn default_costs() -> Costs {
    Costs { iterations: 2, memory: 19456, parallelism: 1 }
}

/// Argon2id, version 0x13, with costs that Argon2 accepts.
#[derive(Debug)]
pub struct CustomKsf {
    pub(crate) algorithm: Algorithm,
    pub(crate) version: Version,
    pub(crate) iterations: u32,
    pub(crate) memory: u32,
    pub(crate) parallelism: u32,
}

impl View for CustomKsf {
    type V = Costs;

    closed spec fn view(&self) -> Costs {
        Costs { iterations: self.iterations, memory: self.memory, parallelism: self.parallelism }
    }
}

impl CustomKsf {
    /// Whether the variant is Argon2id and the version 0x13.
    pub closed spec fn is_argon2id_v0x13(&self) -> bool {
        self.algorithm == Algorithm::Argon2id && self.version == Version::V0x13
    }

    #[verifier::type_invariant]
    closed spec fn valid(&self) -> bool {
        costs_accepted(self@) && self.is_argon2id_v0x13()
    }

    /// The costs held, which Argon2 accepts.
    pub fn costs(&self) -> (r: Costs)
        ensures
            r == self@,
            costs_accepted(r),
            self.is_argon2id_v0x13(),
    {
        proof {
            use_type_invariant(self);
        }
        Costs {
            iterations: self.iterations,
            memory: self.memory,
            parallelism: self.parallelism,
        }
    }

    pub fn iterations(&self) -> (r: u32)
        ensures
            r == self@.iterations,
    {
        self.iterations
    }

    pub fn memory(&self) -> (r: u32)
        ensures
            r == self@.memory,
    {
        self.memory
    }

    pub fn parallelism(&self) -> (r: u32)
        ensures
            r == self@.parallelism,
    {
        self.parallelism
    }
}

impl Default for CustomKsf {
    fn default() -> (r: Self)
        ensures
            r@ == default_costs(),
            r.is_argon2id_v0x13(),
    {
        CustomKsf {
            algorithm: Algorithm::Argon2id,
            version: Version::V0x13,
            iterations: 2,
            memory: 19456,
            parallelism: 1,
        }
    }
}

/// `ParamsBuilder::build` with the three costs set and everything else left
/// at its default: whether Argon2 accepts the combination. The lanes are
/// bounded because the builder multiplies them by eight in 32 bits.
#[verifier::external_body]
fn argon2_params_accepted(t_cost: u32, m_cost: u32, p_cost: u32) -> (r: bool)
    requires
        8 * p_cost <= u32::MAX,
    ensures
        r == costs_accepted(Costs { iterations: t_cost, memory: m_cost, parallelism: p_cost }),
{
    let mut builder = argon2::ParamsBuilder::default();
    builder.t_cost(t_cost);
    builder.m_cost(m_cost);
    builder.p_cost(p_cost);
    builder.build().is_ok()
}

/// The wording of `InternalError::KsfError`.
#[verifier::external_body]
fn ksf_error_text() -> (r: String)
    ensures
        r@ == KSF_FAILURE_WORDS@,
{
    opaque_ke::errors::InternalError::<core::convert::Infallible>::KsfError.to_string()
}

/// Whether `r` is what validating `costs` must give: the key-stretching
/// function with exactly these costs if Argon2 accepts them, and otherwise
/// the internal error for an invalid combination.
pub open spec fn is_ksf_for(r: Result<Option<CustomKsf>, Error>, costs: Costs) -> bool {
    if costs_accepted(costs) {
        r matches Ok(Some(ksf)) && ksf@ == costs && ksf.is_argon2id_v0x13()
    } else {
        r matches Err(e) && e.reports(ErrorKind::Internal, INVALID_KSF_CONTEXT@)
    }
}

/// Validates the three costs and makes the key-stretching function from them.
pub fn build_argon2_ksf(t_cost: u32, m_cost: u32, parallelism: u32) -> (r: Result<
    Option<CustomKsf>,
    Error,
>)
    ensures
        is_ksf_for(r, Costs { iterations: t_cost, memory: m_cost, parallelism }),
{
    if parallelism <= u32::MAX / 8 && argon2_params_accepted(t_cost, m_cost, parallelism) {
        return Ok(
            Some(
                CustomKsf {
                    algorithm: Algorithm::Argon2id,
                    version: Version::V0x13,
                    iterations: t_cost,
                    memory: m_cost,
                    parallelism,
                },
            ),
        );
    }
    Err(Error::Internal { context: INVALID_KSF_CONTEXT, cause: ksf_error_text() })
}

/// Resolves a configuration to the key-stretching function. The named
/// profiles always resolve; a custom one resolves exactly when Argon2 accepts
/// its costs.
pub fn get_custom_ksf(ksf_config: Option<KeyStretchingFunctionConfig>) -> (r: Result<
    Option<CustomKsf>,
    Error,
>)
    ensures
        is_ksf_for(r, resolved_costs(ksf_config)),
{
    let config = match ksf_config {
        Some(config) => config,
        None => KeyStretchingFunctionConfig::LibsodiumModerate,
    };
    match config {
        KeyStretchingFunctionConfig::Rfc9106Recommended => build_argon2_ksf(1, 2097151, 4),
        KeyStretchingFunctionConfig::MemoryConstrained => build_argon2_ksf(3, 65536, 4),
        KeyStretchingFunctionConfig::LibsodiumModerate => build_argon2_ksf(3, 262144, 4),
        KeyStretchingFunctionConfig::Custom { iterations, memory, parallelism } => {
            build_argon2_ksf(iterations, memory, parallelism)
        },
    }
}

/// A custom profile without a single pass is never accepted.
pub proof fn lemma_zero_iterations_rejected(memory: u32, parallelism: u32)
    ensures
        !costs_accepted(
            resolved_costs(
                Some(KeyStretchingFunctionConfig::Custom { iterations: 0, memory, parallelism }),
            ),
        ),
{
}

/// The three named profiles, and the absence of a profile, are accepted.
pub proof fn lemma_named_profiles_accepted(config: Option<KeyStretchingFunctionConfig>)
    requires
        !(config matches Some(KeyStretchingFunctionConfig::Custom { .. })),
    ensures
        costs_accepted(resolved_costs(config)),
{
}

} // verus!
