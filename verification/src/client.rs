//! The client's side: the two steps of a registration and the two steps of
//! a login.

use crate::base64::{
    b64_bytes, b64_text, base64_decode, base64_encode, encodes_len, lemma_b64_round_trip,
};
use crate::engine::{
    check_client_login, check_client_registration, check_credential_response,
    check_registration_response, client_login_finish, client_login_outcome, client_login_parses,
    client_login_start, client_registration_finish, client_registration_parses,
    client_registration_start, credential_response_parses, registration_response_parses,
    registration_server_key, ClientStart, LoginFinish, RegistrationFinish, CLIENT_LOGIN_LEN,
    CLIENT_REGISTRATION_LEN, CREDENTIAL_REQUEST_LEN, FINALIZATION_LEN, HASH_LEN, PUBLIC_KEY_LEN,
    REGISTRATION_RECORD_LEN, REGISTRATION_REQUEST_LEN,
};
use crate::error::{from_protocol_error, Error, ErrorKind};
use crate::identifiers::{client_identity, get_identifiers, server_identity, CustomIdentifiers};
use crate::ksf::{
    costs_accepted, get_custom_ksf, resolved_costs, CustomKsf, KeyStretchingFunctionConfig,
    INVALID_KSF_CONTEXT,
};
use opaque_ke::errors::ProtocolError;
use vstd::prelude::*;
use vstd::utf8::encode_utf8;

verus! {

#[derive(Debug)]
pub struct StartClientLoginParams {
    pub password: String,
}

#[derive(Debug)]
pub struct StartClientLoginResult {
    pub client_login_state: String,
    pub start_login_request: String,
}

#[derive(Debug)]
pub struct FinishClientLoginParams {
    pub client_login_state: String,
    pub login_response: String,
    pub password: String,
    pub identifiers: Option<CustomIdentifiers>,
    pub key_stretching_function_config: Option<KeyStretchingFunctionConfig>,
}

#[derive(Debug)]
pub struct FinishClientLoginResult {
    pub finish_login_request: String,
    pub session_key: String,
    pub export_key: String,
    pub server_static_public_key: String,
}

#[derive(Debug)]
pub struct StartClientRegistrationParams {
    pub password: String,
}

#[derive(Debug)]
pub struct StartClientRegistrationResult {
    pub client_registration_state: String,
    pub registration_request: String,
}

#[derive(Debug)]
pub struct FinishClientRegistrationParams {
    pub password: String,
    pub registration_response: String,
    pub client_registration_state: String,
    pub identifiers: Option<CustomIdentifiers>,
    pub key_stretching_function_config: Option<KeyStretchingFunctionConfig>,
}

#[derive(Debug)]
pub struct FinishClientRegistrationResult {
    pub registration_record: String,
    pub export_key: String,
    pub server_static_public_key: String,
}

/// The decoded input of the second step of a registration, as the engine is
/// given it.
#[derive(Debug)]
pub struct ClientRegistrationFinishInput {
    pub state: Vec<u8>,
    pub response: Vec<u8>,
    pub ksf: CustomKsf,
}

impl StartClientLoginResult {
    /// Whether the two texts encode the state and the request of `started`.
    pub open spec fn encodes(&self, started: ClientStart) -> bool {
        &&& self.client_login_state@ == b64_text(started.state@)
        &&& self.start_login_request@ == b64_text(started.message@)
    }
}

impl StartClientRegistrationResult {
    /// Whether the two texts encode the state and the request of `started`.
    pub open spec fn encodes(&self, started: ClientStart) -> bool {
        &&& self.client_registration_state@ == b64_text(started.state@)
        &&& self.registration_request@ == b64_text(started.message@)
    }
}

impl FinishClientRegistrationResult {
    /// Whether the three texts encode the three byte strings of `done`.
    pub open spec fn encodes(&self, done: RegistrationFinish) -> bool {
        &&& self.registration_record@ == b64_text(done.record@)
        &&& self.export_key@ == b64_text(done.export_key@)
        &&& self.server_static_public_key@ == b64_text(done.server_static_public_key@)
    }
}

impl FinishClientLoginResult {
    /// Whether the four texts stand for byte strings of the lengths that the
    /// engine gives: 64 for the final message, the session key and the export
    /// key, 32 for the server's public key.
    pub open spec fn has_lens(&self) -> bool {
        &&& encodes_len(self.finish_login_request@, FINALIZATION_LEN)
        &&& encodes_len(self.session_key@, HASH_LEN)
        &&& encodes_len(self.export_key@, HASH_LEN)
        &&& encodes_len(self.server_static_public_key@, PUBLIC_KEY_LEN)
    }

    /// Whether the four texts encode the final message, the session key, the
    /// export key and the server's public key, in this order.
    pub open spec fn encodes(&self, parts: (Seq<u8>, Seq<u8>, Seq<u8>, Seq<u8>)) -> bool {
        &&& self.finish_login_request@ == b64_text(parts.0)
        &&& self.session_key@ == b64_text(parts.1)
        &&& self.export_key@ == b64_text(parts.2)
        &&& self.server_static_public_key@ == b64_text(parts.3)
    }
}

/// Turns what the engine gave at the start of a login into the result: the
/// state and the request as text, or a protocol error.
pub fn client_login_started(outcome: Result<ClientStart, ProtocolError>) -> (r: Result<
    StartClientLoginResult,
    Error,
>)
    ensures
        match outcome {
            Ok(started) => r matches Ok(result) && result.encodes(started),
            Err(_) => r matches Err(e) && e.reports(ErrorKind::Protocol, "start client login"@),
        },
{
    match outcome {
        Ok(started) => Ok(
            StartClientLoginResult {
                client_login_state: base64_encode(started.state.as_slice()),
                start_login_request: base64_encode(started.message.as_slice()),
            },
        ),
        Err(error) => Err(from_protocol_error("start client login", &error)),
    }
}

/// First step of a login: blinds the password with fresh randomness. Gives
/// the state to keep, 192 bytes, and the request to send, 96 bytes, both as
/// text; the only failure is the engine's refusal of the password.
pub fn start_client_login(params: StartClientLoginParams) -> (r: Result<
    StartClientLoginResult,
    Error,
>)
    ensures
        match r {
            Ok(result) => encodes_len(result.client_login_state@, CLIENT_LOGIN_LEN) && encodes_len(
                result.start_login_request@,
                CREDENTIAL_REQUEST_LEN,
            ),
            Err(e) => e.reports(ErrorKind::Protocol, "start client login"@),
        },
{
    let outcome = client_login_start(params.password.as_str().as_bytes());
    proof {
        if let Ok(started) = &outcome {
            lemma_b64_round_trip(started.state@);
            lemma_b64_round_trip(started.message@);
        }
    }
    client_login_started(outcome)
}

/// The check at which the input of the second step of a login is refused
/// before the engine is asked to finish, if any: the key-stretching costs
/// first, then the two texts, then the two byte strings.
pub open spec fn finish_client_login_refusal(params: FinishClientLoginParams) -> Option<
    (ErrorKind, Seq<char>),
> {
    let response = b64_bytes(params.login_response@);
    let state = b64_bytes(params.client_login_state@);
    if !costs_accepted(resolved_costs(params.key_stretching_function_config)) {
        Some((ErrorKind::Internal, INVALID_KSF_CONTEXT@))
    } else if response is None {
        Some((ErrorKind::Encoding, "loginResponse"@))
    } else if state is None {
        Some((ErrorKind::Encoding, "clientLoginState"@))
    } else if !client_login_parses(state.unwrap()) {
        Some((ErrorKind::Protocol, "deserialize clientLoginState"@))
    } else if !credential_response_parses(response.unwrap()) {
        Some((ErrorKind::Protocol, "deserialize loginResponse"@))
    } else {
        None
    }
}

/// What the engine makes of the input of the second step of a login.
pub open spec fn finish_client_login_outcome(params: FinishClientLoginParams) -> Option<
    (Seq<u8>, Seq<u8>, Seq<u8>, Seq<u8>),
> {
    let costs = resolved_costs(params.key_stretching_function_config);
    client_login_outcome(
        b64_bytes(params.client_login_state@).unwrap(),
        b64_bytes(params.login_response@).unwrap(),
        encode_utf8(params.password@),
        client_identity(params.identifiers),
        server_identity(params.identifiers),
        costs.iterations,
        costs.memory,
        costs.parallelism,
    )
}

/// Turns what the engine gave at the end of a login into the result. Any
/// failure of the engine at this point, a wrong password among them, gives
/// no result and no error.
pub fn client_login_finished(outcome: Result<LoginFinish, ProtocolError>) -> (r: Option<
    FinishClientLoginResult,
>)
    ensures
        match outcome {
            Ok(done) => r matches Some(result) && result.encodes(done.parts()),
            Err(_) => r is None,
        },
{
    match outcome {
        Ok(done) => Some(
            FinishClientLoginResult {
                finish_login_request: base64_encode(done.finalization.as_slice()),
                session_key: base64_encode(done.session_key.as_slice()),
                export_key: base64_encode(done.export_key.as_slice()),
                server_static_public_key: base64_encode(done.server_static_public_key.as_slice()),
            },
        ),
        Err(_) => None,
    }
}

/// Second step of a login. Input that is refused before the engine is asked
/// to finish gives the error of the first check that fails. After that there
/// is no error: the result is absent where the engine fails, and otherwise it
/// is the engine's four results as text.
pub fn finish_client_login(params: FinishClientLoginParams) -> (r: Result<
    Option<FinishClientLoginResult>,
    Error,
>)
    ensures
        match finish_client_login_refusal(params) {
            Some((kind, context)) => r matches Err(e) && e.reports(kind, context),
            None => match finish_client_login_outcome(params) {
                Some(parts) => r matches Ok(Some(result)) && result.encodes(parts)
                    && result.has_lens(),
                None => r matches Ok(None),
            },
        },
{
    let custom_ksf = get_custom_ksf(params.key_stretching_function_config)?;
    let response = base64_decode("loginResponse", params.login_response.as_str())?;
    let state = base64_decode("clientLoginState", params.client_login_state.as_str())?;
    match check_client_login(state.as_slice()) {
        Ok(_) => {},
        Err(error) => {
            return Err(from_protocol_error("deserialize clientLoginState", &error));
        },
    }
    match check_credential_response(response.as_slice()) {
        Ok(_) => {},
        Err(error) => {
            return Err(from_protocol_error("deserialize loginResponse", &error));
        },
    }
    let ksf = match custom_ksf {
        Some(ksf) => ksf,
        None => CustomKsf::default(),
    };
    let outcome = client_login_finish(
        state.as_slice(),
        response.as_slice(),
        params.password.as_str().as_bytes(),
        get_identifiers(&params.identifiers),
        &ksf,
    );
    proof {
        if let Ok(done) = &outcome {
            lemma_b64_round_trip(done.finalization@);
            lemma_b64_round_trip(done.session_key@);
            lemma_b64_round_trip(done.export_key@);
            lemma_b64_round_trip(done.server_static_public_key@);
        }
    }
    Ok(client_login_finished(outcome))
}

/// Turns what the engine gave at the start of a registration into the
/// result: the state and the request as text, or a protocol error.
pub fn client_registration_started(outcome: Result<ClientStart, ProtocolError>) -> (r: Result<
    StartClientRegistrationResult,
    Error,
>)
    ensures
        match outcome {
            Ok(started) => r matches Ok(result) && result.encodes(started),
            Err(_) => r matches Err(e) && e.reports(
                ErrorKind::Protocol,
                "start client registration"@,
            ),
        },
{
    match outcome {
        Ok(started) => Ok(
            StartClientRegistrationResult {
                client_registration_state: base64_encode(started.state.as_slice()),
                registration_request: base64_encode(started.message.as_slice()),
            },
        ),
        Err(error) => Err(from_protocol_error("start client registration", &error)),
    }
}

/// First step of a registration: blinds the password with fresh randomness.
/// Gives the state to keep, 64 bytes, and the request to send, 32 bytes, both
/// as text; the only failure is the engine's refusal of the password.
pub fn start_client_registration(params: StartClientRegistrationParams) -> (r: Result<
    StartClientRegistrationResult,
    Error,
>)
    ensures
        match r {
            Ok(result) => encodes_len(result.client_registration_state@, CLIENT_REGISTRATION_LEN)
                && encodes_len(result.registration_request@, REGISTRATION_REQUEST_LEN),
            Err(e) => e.reports(ErrorKind::Protocol, "start client registration"@),
        },
{
    let outcome = client_registration_start(params.password.as_str().as_bytes());
    proof {
        if let Ok(started) = &outcome {
            lemma_b64_round_trip(started.state@);
            lemma_b64_round_trip(started.message@);
        }
    }
    client_registration_started(outcome)
}

/// The check at which the input of the second step of a registration is
/// refused before the engine is asked to finish, if any: the key-stretching
/// costs first, then the two texts, then the two byte strings.
pub open spec fn finish_client_registration_refusal(
    params: FinishClientRegistrationParams,
) -> Option<(ErrorKind, Seq<char>)> {
    let response = b64_bytes(params.registration_response@);
    let state = b64_bytes(params.client_registration_state@);
    if !costs_accepted(resolved_costs(params.key_stretching_function_config)) {
        Some((ErrorKind::Internal, INVALID_KSF_CONTEXT@))
    } else if response is None {
        Some((ErrorKind::Encoding, "registrationResponse"@))
    } else if state is None {
        Some((ErrorKind::Encoding, "clientRegistrationState"@))
    } else if !client_registration_parses(state.unwrap()) {
        Some((ErrorKind::Protocol, "deserialize clientRegistrationState"@))
    } else if !registration_response_parses(response.unwrap()) {
        Some((ErrorKind::Protocol, "deserialize registrationResponse"@))
    } else {
        None
    }
}

/// Validates and decodes the input of the second step of a registration.
/// Gives the error of the first check that fails, and otherwise what the
/// engine is to be given: the decoded state and response, and the
/// key-stretching function at the costs that the configuration stands for.
pub fn client_registration_finish_input(params: &FinishClientRegistrationParams) -> (r: Result<
    ClientRegistrationFinishInput,
    Error,
>)
    ensures
        match finish_client_registration_refusal(*params) {
            Some((kind, context)) => r matches Err(e) && e.reports(kind, context),
            None => r matches Ok(input) && Some(input.state@) == b64_bytes(
                params.client_registration_state@,
            ) && Some(input.response@) == b64_bytes(params.registration_response@) && input.ksf@
                == resolved_costs(params.key_stretching_function_config)
                && input.ksf.is_argon2id_v0x13(),
        },
{
    let custom_ksf = get_custom_ksf(params.key_stretching_function_config)?;
    let response = base64_decode("registrationResponse", params.registration_response.as_str())?;
    let state = base64_decode("clientRegistrationState", params.client_registration_state.as_str())?;
    match check_client_registration(state.as_slice()) {
        Ok(_) => {},
        Err(error) => {
            return Err(from_protocol_error("deserialize clientRegistrationState", &error));
        },
    }
    match check_registration_response(response.as_slice()) {
        Ok(_) => {},
        Err(error) => {
            return Err(from_protocol_error("deserialize registrationResponse", &error));
        },
    }
    let ksf = match custom_ksf {
        Some(ksf) => ksf,
        None => CustomKsf::default(),
    };
    Ok(ClientRegistrationFinishInput { state, response, ksf })
}

/// Turns what the engine gave at the end of a registration into the result:
/// the record, the export key and the server's public key as text, or a
/// protocol error.
pub fn client_registration_finished(outcome: Result<RegistrationFinish, ProtocolError>) -> (r:
    Result<FinishClientRegistrationResult, Error>)
    ensures
        match outcome {
            Ok(done) => r matches Ok(result) && result.encodes(done),
            Err(_) => r matches Err(e) && e.reports(
                ErrorKind::Protocol,
                "finish client registration"@,
            ),
        },
{
    match outcome {
        Ok(done) => Ok(
            FinishClientRegistrationResult {
                registration_record: base64_encode(done.record.as_slice()),
                export_key: base64_encode(done.export_key.as_slice()),
                server_static_public_key: base64_encode(done.server_static_public_key.as_slice()),
            },
        ),
        Err(error) => Err(from_protocol_error("finish client registration", &error)),
    }
}

/// Second step of a registration. Input that is refused before the engine is
/// asked to finish gives the error of the first check that fails. After that
/// the engine seals the envelope with fresh randomness: the result is its
/// three results as text, or a protocol error where it fails. The record has
/// 192 bytes and the export key 64; the server's public key is the one that
/// the response holds, whatever was drawn.
pub fn finish_client_registration(params: FinishClientRegistrationParams) -> (r: Result<
    FinishClientRegistrationResult,
    Error,
>)
    ensures
        match finish_client_registration_refusal(params) {
            Some((kind, context)) => r matches Err(e) && e.reports(kind, context),
            None => match r {
                Ok(result) => encodes_len(result.registration_record@, REGISTRATION_RECORD_LEN)
                    && encodes_len(result.export_key@, HASH_LEN) && encodes_len(
                    result.server_static_public_key@,
                    PUBLIC_KEY_LEN,
                ) && result.server_static_public_key@ == b64_text(
                    registration_server_key(b64_bytes(params.registration_response@).unwrap()),
                ),
                Err(e) => e.reports(ErrorKind::Protocol, "finish client registration"@),
            },
        },
{
    let input = client_registration_finish_input(&params)?;
    let outcome = client_registration_finish(
        input.state.as_slice(),
        input.response.as_slice(),
        params.password.as_str().as_bytes(),
        get_identifiers(&params.identifiers),
        &input.ksf,
    );
    proof {
        if let Ok(done) = &outcome {
            lemma_b64_round_trip(done.record@);
            lemma_b64_round_trip(done.export_key@);
            lemma_b64_round_trip(done.server_static_public_key@);
        }
    }
    client_registration_finished(outcome)
}

/// Key-stretching costs that Argon2 does not accept are the first reason to
/// refuse the second step of a login, whatever the other fields hold: the
/// failure is an internal error, and the engine is never asked to hash.
pub proof fn lemma_login_refuses_invalid_costs_first(params: FinishClientLoginParams)
    requires
        !costs_accepted(resolved_costs(params.key_stretching_function_config)),
    ensures
        finish_client_login_refusal(params) == Some((ErrorKind::Internal, INVALID_KSF_CONTEXT@)),
{
}

/// Key-stretching costs that Argon2 does not accept are the first reason to
/// refuse the second step of a registration, whatever the other fields hold:
/// the failure is an internal error, and the engine is never asked to hash.
pub proof fn lemma_registration_refuses_invalid_costs_first(params: FinishClientRegistrationParams)
    requires
        !costs_accepted(resolved_costs(params.key_stretching_function_config)),
    ensures
        finish_client_registration_refusal(params) == Some(
            (ErrorKind::Internal, INVALID_KSF_CONTEXT@),
        ),
{
}

/// A custom profile without a single pass is refused at both second steps
/// with an internal error.
pub proof fn lemma_zero_iterations_refused(
    login: FinishClientLoginParams,
    registration: FinishClientRegistrationParams,
)
    requires
        login.key_stretching_function_config matches Some(
            KeyStretchingFunctionConfig::Custom { iterations, .. },
        ) && iterations == 0,
        registration.key_stretching_function_config matches Some(
            KeyStretchingFunctionConfig::Custom { iterations, .. },
        ) && iterations == 0,
    ensures
        finish_client_login_refusal(login) == Some((ErrorKind::Internal, INVALID_KSF_CONTEXT@)),
        finish_client_registration_refusal(registration) == Some(
            (ErrorKind::Internal, INVALID_KSF_CONTEXT@),
        ),
{
}

/// With a named profile or none, the key-stretching costs are never the
/// reason for a refusal.
pub proof fn lemma_named_profile_never_refused(params: FinishClientLoginParams)
    requires
        !(params.key_stretching_function_config matches Some(
            KeyStretchingFunctionConfig::Custom { .. },
        )),
    ensures
        !(finish_client_login_refusal(params) matches Some((kind, _)) && kind
            == ErrorKind::Internal),
{
}

} // verus!
