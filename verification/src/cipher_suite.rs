//! The primitives that the protocol runs on.

use vstd::prelude::*;

verus! {

/// `opaque_ke::Ristretto255`, named as a primitive only.
#[verifier::external_type_specification]
#[verifier::external_body]
pub struct ExRistretto255(opaque_ke::Ristretto255);

/// `opaque_ke::key_exchange::tripledh::TripleDh`, named as a primitive only.
#[verifier::external_type_specification]
#[verifier::external_body]
pub struct ExTripleDh(opaque_ke::key_exchange::tripledh::TripleDh);

/// `argon2::Argon2`, named as a primitive only.
#[verifier::external_type_specification]
#[verifier::external_body]
pub struct ExArgon2<'key>(argon2::Argon2<'key>);

/// Ristretto255 for the OPRF and the key exchange group, triple
/// Diffie-Hellman for the key exchange, Argon2 for key stretching.
pub struct DefaultCipherSuite;

impl opaque_ke::CipherSuite for DefaultCipherSuite {
    type OprfCs = opaque_ke::Ristretto255;

    type KeGroup = opaque_ke::Ristretto255;

    type KeyExchange = opaque_ke::key_exchange::tripledh::TripleDh;

    type Ksf = argon2::Argon2<'static>;
}

} // verus!
