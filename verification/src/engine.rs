//! The calls into the cryptographic engine, `opaque-ke`.
//!
//! Every function here hands byte strings to the engine and takes byte
//! strings back. What the engine computes is not proved: each contract is
//! taken on trust from the engine's source. Where a result is a function of
//! the arguments alone it has a name, so that callers can say exactly which
//! engine result they return; where the engine draws randomness, the contract
//! says what holds of every outcome: the lengths of the byte strings, and
//! what the engine is bound to accept again.

use crate::cipher_suite::DefaultCipherSuite;
use crate::identifiers::identity_view;
use crate::ksf::CustomKsf;
use argon2::{Argon2, Params};
use opaque_ke::errors::{InternalError, ProtocolError};
use opaque_ke::rand::rngs::OsRng;
use opaque_ke::{
    ClientLogin, ClientLoginFinishParameters, ClientRegistration,
    ClientRegistrationFinishParameters, CredentialFinalization, CredentialRequest,
    CredentialResponse, Identifiers, RegistrationRequest, RegistrationResponse, ServerLogin,
    ServerLoginStartParameters, ServerRegistration, ServerSetup,
};
use vstd::prelude::*;

verus! {

/// What a client keeps and what it sends when it starts a registration or a
/// login.
#[derive(Debug)]
pub struct ClientStart {
    pub state: Vec<u8>,
    pub message: Vec<u8>,
}

/// What a client has when it has finished a registration.
#[derive(Debug)]
pub struct RegistrationFinish {
    pub record: Vec<u8>,
    pub export_key: Vec<u8>,
    pub server_static_public_key: Vec<u8>,
}

/// What a client has when it has finished a login.
#[derive(Debug)]
pub struct LoginFinish {
    pub finalization: Vec<u8>,
    pub session_key: Vec<u8>,
    pub export_key: Vec<u8>,
    pub server_static_public_key: Vec<u8>,
}

/// What a server keeps and what it sends when it starts a login.
#[derive(Debug)]
pub struct ServerLoginStart {
    pub state: Vec<u8>,
    pub message: Vec<u8>,
}

/// Length in bytes of a serialized server setup: a seed of 64 bytes and two
/// private keys of 32.
pub const SERVER_SETUP_LEN: usize = 128;

/// Length in bytes of a serialized public key.
pub const PUBLIC_KEY_LEN: usize = 32;

/// Length in bytes of a session key, of an export key and of a final message:
/// one output of SHA-512.
pub const HASH_LEN: usize = 64;

/// Length in bytes of a client's registration state: a scalar and a group
/// element.
pub const CLIENT_REGISTRATION_LEN: usize = 64;

/// Length in bytes of a registration request: a group element.
pub const REGISTRATION_REQUEST_LEN: usize = 32;

/// Length in bytes of a registration response: a group element and a public
/// key.
pub const REGISTRATION_RESPONSE_LEN: usize = 64;

/// Length in bytes of a registration record: a public key, a masking key of
/// 64 bytes and an envelope of 96.
pub const REGISTRATION_RECORD_LEN: usize = 192;

/// Length in bytes of a client's login state: a scalar, the request and a
/// key exchange state of 64 bytes.
pub const CLIENT_LOGIN_LEN: usize = 192;

/// Length in bytes of a login request: a group element, a nonce and a public
/// key.
pub const CREDENTIAL_REQUEST_LEN: usize = 96;

/// Length in bytes of a login response: a group element, a nonce, a masked
/// response of 128 bytes and a key exchange message of 128.
pub const CREDENTIAL_RESPONSE_LEN: usize = 320;

/// Length in bytes of a server's login state: three outputs of SHA-512.
pub const SERVER_LOGIN_LEN: usize = 192;

/// Length in bytes of a final message.
pub const FINALIZATION_LEN: usize = 64;

/// Whether `ServerSetup::deserialize` accepts these bytes.
pub uninterp spec fn server_setup_parses(bytes: Seq<u8>) -> bool;

/// Whether `RegistrationRequest::deserialize` accepts these bytes.
pub uninterp spec fn registration_request_parses(bytes: Seq<u8>) -> bool;

/// Whether `RegistrationResponse::deserialize` accepts these bytes.
pub uninterp spec fn registration_response_parses(bytes: Seq<u8>) -> bool;

/// Whether `ClientRegistration::deserialize` accepts these bytes.
pub uninterp spec fn client_registration_parses(bytes: Seq<u8>) -> bool;

/// Whether `ServerRegistration::deserialize` accepts these bytes.
pub uninterp spec fn registration_record_parses(bytes: Seq<u8>) -> bool;

/// Whether `ClientLogin::deserialize` accepts these bytes.
pub uninterp spec fn client_login_parses(bytes: Seq<u8>) -> bool;

/// Whether `CredentialRequest::deserialize` accepts these bytes.
pub uninterp spec fn credential_request_parses(bytes: Seq<u8>) -> bool;

/// Whether `CredentialResponse::deserialize` accepts these bytes.
pub uninterp spec fn credential_response_parses(bytes: Seq<u8>) -> bool;

/// Whether `ServerLogin::deserialize` accepts these bytes: it asks for the
/// length of a server's login state and for nothing else.
pub open spec fn server_login_parses(bytes: Seq<u8>) -> bool {
    bytes.len() == SERVER_LOGIN_LEN
}

/// Whether `CredentialFinalization::deserialize` accepts these bytes: it asks
/// for the length of a final message and for nothing else.
pub open spec fn credential_finalization_parses(bytes: Seq<u8>) -> bool {
    bytes.len() == FINALIZATION_LEN
}

/// The serialized public key of the key pair in a serialized server setup.
pub uninterp spec fn server_public_key(setup: Seq<u8>) -> Seq<u8>;

/// The server's public key in a serialized registration response: its last
/// 32 bytes.
pub open spec fn registration_server_key(response: Seq<u8>) -> Seq<u8> {
    response.subrange(REGISTRATION_RESPONSE_LEN - PUBLIC_KEY_LEN, REGISTRATION_RESPONSE_LEN as int)
}

/// The serialized response of `ServerRegistration::start` to a serialized
/// request, under a serialized setup and for a credential identifier; `None`
/// where the engine gives an error.
pub uninterp spec fn registration_response(
    setup: Seq<u8>,
    request: Seq<u8>,
    user: Seq<u8>,
) -> Option<Seq<u8>>;

/// The outcome of `ClientLogin::finish` on serialized state and response,
/// with Argon2id at version 0x13 and the given costs: the final message, the
/// session key, the export key and the server's public key, in this order;
/// `None` where the engine gives an error.
pub uninterp spec fn client_login_outcome(
    state: Seq<u8>,
    response: Seq<u8>,
    password: Seq<u8>,
    client: Option<Seq<u8>>,
    server: Option<Seq<u8>>,
    iterations: u32,
    memory: u32,
    parallelism: u32,
) -> Option<(Seq<u8>, Seq<u8>, Seq<u8>, Seq<u8>)>;

/// The session key of `ServerLogin::finish` on serialized state and final
/// message; `None` where the engine gives an error.
pub uninterp spec fn server_login_session_key(state: Seq<u8>, finalization: Seq<u8>) -> Option<
    Seq<u8>,
>;

impl ClientStart {
    /// Whether the state and the message have the given lengths.
    pub open spec fn has_lens(&self, state: usize, message: usize) -> bool {
        self.state@.len() == state && self.message@.len() == message
    }
}

impl ServerLoginStart {
    /// Whether the state and the message have the lengths that the engine
    /// gives them.
    pub open spec fn has_lens(&self) -> bool {
        self.state@.len() == SERVER_LOGIN_LEN && self.message@.len() == CREDENTIAL_RESPONSE_LEN
    }
}

impl RegistrationFinish {
    /// Whether the three byte strings have the lengths that the engine gives
    /// them.
    pub open spec fn has_lens(&self) -> bool {
        &&& self.record@.len() == REGISTRATION_RECORD_LEN
        &&& self.export_key@.len() == HASH_LEN
        &&& self.server_static_public_key@.len() == PUBLIC_KEY_LEN
    }
}

impl LoginFinish {
    /// Whether the four byte strings have the lengths that the engine gives
    /// them.
    pub open spec fn has_lens(&self) -> bool {
        &&& self.finalization@.len() == FINALIZATION_LEN
        &&& self.session_key@.len() == HASH_LEN
        &&& self.export_key@.len() == HASH_LEN
        &&& self.server_static_public_key@.len() == PUBLIC_KEY_LEN
    }

    /// The four byte strings, in the order in which the engine's outcome is
    /// named.
    pub open spec fn parts(&self) -> (Seq<u8>, Seq<u8>, Seq<u8>, Seq<u8>) {
        (
            self.finalization@,
            self.session_key@,
            self.export_key@,
            self.server_static_public_key@,
        )
    }
}

/// `ServerSetup::new` with the operating system's randomness, serialized.
/// Whatever is drawn, the result has the length of a setup and holds two
/// private keys that are canonical and not zero, so that
/// `ServerSetup::deserialize` accepts it.
#[verifier::external_body]
pub(crate) fn server_setup_new() -> (r: Vec<u8>)
    ensures
        r@.len() == SERVER_SETUP_LEN,
        server_setup_parses(r@),
{
    ServerSetup::<DefaultCipherSuite>::new(&mut OsRng).serialize().to_vec()
}

/// `ServerSetup::deserialize`: whether the engine accepts the bytes.
#[verifier::external_body]
pub(crate) fn check_server_setup(bytes: &[u8]) -> (r: Result<(), ProtocolError>)
    ensures
        r is Ok <==> server_setup_parses(bytes@),
{
    ServerSetup::<DefaultCipherSuite>::deserialize(bytes).map(|_| ())
}

/// `RegistrationRequest::deserialize`: whether the engine accepts the bytes.
#[verifier::external_body]
pub(crate) fn check_registration_request(bytes: &[u8]) -> (r: Result<(), ProtocolError>)
    ensures
        r is Ok <==> registration_request_parses(bytes@),
{
    RegistrationRequest::<DefaultCipherSuite>::deserialize(bytes).map(|_| ())
}

/// `RegistrationResponse::deserialize`: whether the engine accepts the bytes.
#[verifier::external_body]
pub(crate) fn check_registration_response(bytes: &[u8]) -> (r: Result<(), ProtocolError>)
    ensures
        r is Ok <==> registration_response_parses(bytes@),
{
    RegistrationResponse::<DefaultCipherSuite>::deserialize(bytes).map(|_| ())
}

/// `ClientRegistration::deserialize`: whether the engine accepts the bytes.
#[verifier::external_body]
pub(crate) fn check_client_registration(bytes: &[u8]) -> (r: Result<(), ProtocolError>)
    ensures
        r is Ok <==> client_registration_parses(bytes@),
{
    ClientRegistration::<DefaultCipherSuite>::deserialize(bytes).map(|_| ())
}

/// `ServerRegistration::deserialize`: whether the engine accepts the bytes.
#[verifier::external_body]
pub(crate) fn check_registration_record(bytes: &[u8]) -> (r: Result<(), ProtocolError>)
    ensures
        r is Ok <==> registration_record_parses(bytes@),
{
    ServerRegistration::<DefaultCipherSuite>::deserialize(bytes).map(|_| ())
}

/// `ClientLogin::deserialize`: whether the engine accepts the bytes.
#[verifier::external_body]
pub(crate) fn check_client_login(bytes: &[u8]) -> (r: Result<(), ProtocolError>)
    ensures
        r is Ok <==> client_login_parses(bytes@),
{
    ClientLogin::<DefaultCipherSuite>::deserialize(bytes).map(|_| ())
}

/// `CredentialRequest::deserialize`: whether the engine accepts the bytes.
#[verifier::external_body]
pub(crate) fn check_credential_request(bytes: &[u8]) -> (r: Result<(), ProtocolError>)
    ensures
        r is Ok <==> credential_request_parses(bytes@),
{
    CredentialRequest::<DefaultCipherSuite>::deserialize(bytes).map(|_| ())
}

/// `CredentialResponse::deserialize`: whether the engine accepts the bytes.
#[verifier::external_body]
pub(crate) fn check_credential_response(bytes: &[u8]) -> (r: Result<(), ProtocolError>)
    ensures
        r is Ok <==> credential_response_parses(bytes@),
{
    CredentialResponse::<DefaultCipherSuite>::deserialize(bytes).map(|_| ())
}

/// `ServerLogin::deserialize`: whether the engine accepts the bytes.
#[verifier::external_body]
pub(crate) fn check_server_login(bytes: &[u8]) -> (r: Result<(), ProtocolError>)
    ensures
        r is Ok <==> server_login_parses(bytes@),
{
    ServerLogin::<DefaultCipherSuite>::deserialize(bytes).map(|_| ())
}

/// `CredentialFinalization::deserialize`: whether the engine accepts the
/// bytes.
#[verifier::external_body]
pub(crate) fn check_credential_finalization(bytes: &[u8]) -> (r: Result<(), ProtocolError>)
    ensures
        r is Ok <==> credential_finalization_parses(bytes@),
{
    CredentialFinalization::<DefaultCipherSuite>::deserialize(bytes).map(|_| ())
}

/// `KeyPair::public` of `ServerSetup::keypair`, serialized: 32 bytes. Taking
/// the key out of a setup cannot fail, so the only error is the
/// deserializer's.
#[verifier::external_body]
pub(crate) fn server_setup_public_key(setup: &[u8]) -> (r: Result<Vec<u8>, ProtocolError>)
    ensures
        r is Ok <==> server_setup_parses(setup@),
        r matches Ok(key) ==> key@ == server_public_key(setup@) && key@.len() == PUBLIC_KEY_LEN,
{
    let setup = ServerSetup::<DefaultCipherSuite>::deserialize(setup)?;
    Ok(setup.keypair().public().serialize().to_vec())
}

/// `ClientRegistration::start` with the operating system's randomness; the
/// state and the request, serialized. Whatever is drawn, they have 64 and 32
/// bytes.
#[verifier::external_body]
pub(crate) fn client_registration_start(password: &[u8]) -> (r: Result<ClientStart, ProtocolError>)
    ensures
        r matches Ok(started) ==> started.has_lens(
            CLIENT_REGISTRATION_LEN,
            REGISTRATION_REQUEST_LEN,
        ),
{
    let started = ClientRegistration::<DefaultCipherSuite>::start(&mut OsRng, password)?;
    Ok(
        ClientStart {
            state: started.state.serialize().to_vec(),
            message: started.message.serialize().to_vec(),
        },
    )
}

/// `ServerRegistration::start` on the setup and the request that the bytes
/// deserialize to; the response, serialized. The engine draws no randomness
/// here.
#[verifier::external_body]
pub(crate) fn server_registration_start(setup: &[u8], request: &[u8], user: &[u8]) -> (r: Result<
    Vec<u8>,
    ProtocolError,
>)
    ensures
        match r {
            Ok(response) => registration_response(setup@, request@, user@) == Some(response@)
                && response@.len() == REGISTRATION_RESPONSE_LEN,
            Err(_) => registration_response(setup@, request@, user@) is None,
        },
{
    let setup = ServerSetup::<DefaultCipherSuite>::deserialize(setup)?;
    let request = RegistrationRequest::deserialize(request)?;
    let started = ServerRegistration::<DefaultCipherSuite>::start(&setup, request, user)?;
    Ok(started.message.serialize().to_vec())
}

/// `ClientRegistration::finish` with the operating system's randomness, on
/// the state and the response that the bytes deserialize to, with the Argon2
/// of `ksf`; the record, the export key and the server's public key,
/// serialized. Whatever is drawn, they have 192, 64 and 32 bytes, and the
/// server's key is the one that the response holds: the response is a group
/// element followed by that key, and a key is accepted in its one canonical
/// encoding only, in which it is handed out again.
#[verifier::external_body]
pub(crate) fn client_registration_finish(
    state: &[u8],
    response: &[u8],
    password: &[u8],
    identifiers: Identifiers<'_>,
    ksf: &CustomKsf,
) -> (r: Result<RegistrationFinish, ProtocolError>)
    requires
        ksf.is_argon2id_v0x13(),
    ensures
        r matches Ok(done) ==> done.has_lens() && response@.len() == REGISTRATION_RESPONSE_LEN
            && done.server_static_public_key@ == registration_server_key(response@),
{
    let state = ClientRegistration::<DefaultCipherSuite>::deserialize(state)?;
    let response = RegistrationResponse::deserialize(response)?;
    let costs = Params::new(ksf.memory, ksf.iterations, ksf.parallelism, None)
        .map_err(|_| InternalError::KsfError)?;
    let argon = Argon2::new(ksf.algorithm, ksf.version, costs);
    let params = ClientRegistrationFinishParameters::new(identifiers, Some(&argon));
    let done = state.finish(&mut OsRng, password, response, params)?;
    Ok(
        RegistrationFinish {
            record: done.message.serialize().to_vec(),
            export_key: done.export_key.to_vec(),
            server_static_public_key: done.server_s_pk.serialize().to_vec(),
        },
    )
}

/// `ClientLogin::start` with the operating system's randomness; the state
/// and the request, serialized. Whatever is drawn, they have 192 and 96
/// bytes.
#[verifier::external_body]
pub(crate) fn client_login_start(password: &[u8]) -> (r: Result<ClientStart, ProtocolError>)
    ensures
        r matches Ok(started) ==> started.has_lens(CLIENT_LOGIN_LEN, CREDENTIAL_REQUEST_LEN),
{
    let started = ClientLogin::<DefaultCipherSuite>::start(&mut OsRng, password)?;
    Ok(
        ClientStart {
            state: started.state.serialize().to_vec(),
            message: started.message.serialize().to_vec(),
        },
    )
}

/// `ServerLogin::start` with the operating system's randomness, on the
/// setup, the record (if there is one) and the request that the bytes
/// deserialize to, with no context; the state and the response, serialized.
/// Whatever is drawn, they have 192 and 320 bytes.
#[verifier::external_body]
pub(crate) fn server_login_start(
    setup: &[u8],
    record: Option<&[u8]>,
    request: &[u8],
    user: &[u8],
    identifiers: Identifiers<'_>,
) -> (r: Result<ServerLoginStart, ProtocolError>)
    ensures
        r matches Ok(started) ==> started.has_lens(),
{
    let setup = ServerSetup::<DefaultCipherSuite>::deserialize(setup)?;
    let record = record.map(ServerRegistration::deserialize).transpose()?;
    let request = CredentialRequest::deserialize(request)?;
    let params = ServerLoginStartParameters { identifiers, context: None };
    let started = ServerLogin::start(&mut OsRng, &setup, record, request, user, params)?;
    Ok(
        ServerLoginStart {
            state: started.state.serialize().to_vec(),
            message: started.message.serialize().to_vec(),
        },
    )
}

/// `ClientLogin::finish` on the state and the response that the bytes
/// deserialize to, with no context and with the Argon2 of `ksf`, which is
/// Argon2id at version 0x13; the four results, serialized: 64, 64, 64 and 32
/// bytes. The engine draws no randomness here.
#[verifier::external_body]
pub(crate) fn client_login_finish(
    state: &[u8],
    response: &[u8],
    password: &[u8],
    identifiers: Identifiers<'_>,
    ksf: &CustomKsf,
) -> (r: Result<LoginFinish, ProtocolError>)
    requires
        ksf.is_argon2id_v0x13(),
    ensures
        r matches Ok(done) ==> done.has_lens(),
        match r {
            Ok(done) => client_login_outcome(
                state@,
                response@,
                password@,
                identity_view(identifiers.client),
                identity_view(identifiers.server),
                ksf@.iterations,
                ksf@.memory,
                ksf@.parallelism,
            ) == Some(done.parts()),
            Err(_) => client_login_outcome(
                state@,
                response@,
                password@,
                identity_view(identifiers.client),
                identity_view(identifiers.server),
                ksf@.iterations,
                ksf@.memory,
                ksf@.parallelism,
            ) is None,
        },
{
    let state = ClientLogin::<DefaultCipherSuite>::deserialize(state)?;
    let response = CredentialResponse::deserialize(response)?;
    let costs = Params::new(ksf.memory, ksf.iterations, ksf.parallelism, None)
        .map_err(|_| InternalError::KsfError)?;
    let argon = Argon2::new(ksf.algorithm, ksf.version, costs);
    let params = ClientLoginFinishParameters::new(None, identifiers, Some(&argon));
    let done = state.finish(password, response, params)?;
    Ok(
        LoginFinish {
            finalization: done.message.serialize().to_vec(),
            session_key: done.session_key.to_vec(),
            export_key: done.export_key.to_vec(),
            server_static_public_key: done.server_s_pk.serialize().to_vec(),
        },
    )
}

/// `ServerLogin::finish` on the state and the final message that the bytes
/// deserialize to; the session key, 64 bytes. The engine draws no randomness
/// here.
#[verifier::external_body]
pub(crate) fn server_login_finish(state: &[u8], finalization: &[u8]) -> (r: Result<
    Vec<u8>,
    ProtocolError,
>)
    ensures
        match r {
            Ok(key) => server_login_session_key(state@, finalization@) == Some(key@)
                && key@.len() == HASH_LEN,
            Err(_) => server_login_session_key(state@, finalization@) is None,
        },
{
    let state = ServerLogin::<DefaultCipherSuite>::deserialize(state)?;
    let finalization = CredentialFinalization::deserialize(finalization)?;
    Ok(state.finish(finalization)?.session_key.to_vec())
}

} // verus!
