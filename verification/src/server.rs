//! The server's side: the setup, the response to a registration, and the
//! two steps of a login.

use crate::base64::{
    b64_bytes, b64_text, base64_decode, base64_encode, encodes_len, lemma_b64_round_trip,
};
use crate::engine::{
    check_credential_finalization, check_credential_request, check_registration_record,
    check_registration_request, check_server_login, check_server_setup,
    credential_finalization_parses, credential_request_parses, registration_record_parses,
    registration_request_parses, registration_response, server_login_finish,
    server_login_parses, server_login_session_key, server_login_start, server_public_key,
    server_registration_start, server_setup_new, server_setup_parses, server_setup_public_key,
    ServerLoginStart, CREDENTIAL_RESPONSE_LEN, HASH_LEN, PUBLIC_KEY_LEN,
    REGISTRATION_RESPONSE_LEN, SERVER_LOGIN_LEN, SERVER_SETUP_LEN,
};
use crate::error::{from_protocol_error, Error, ErrorKind};
use crate::identifiers::{get_identifiers, CustomIdentifiers};
use opaque_ke::errors::ProtocolError;
use vstd::prelude::*;
use vstd::utf8::encode_utf8;

verus! {

#[derive(Debug)]
pub struct CreateServerRegistrationResponseParams {
    pub server_setup: String,
    pub user_identifier: String,
    pub registration_request: String,
}

#[derive(Debug)]
pub struct CreateServerRegistrationResponseResult {
    pub registration_response: String,
}

#[derive(Debug)]
pub struct StartServerLoginParams {
    pub server_setup: String,
    pub registration_record: Option<String>,
    pub start_login_request: String,
    pub user_identifier: String,
    pub identifiers: Option<CustomIdentifiers>,
}

#[derive(Debug)]
pub struct StartServerLoginResult {
    pub server_login_state: String,
    pub login_response: String,
}

#[derive(Debug)]
pub struct FinishServerLoginParams {
    pub server_login_state: String,
    pub finish_login_request: String,
}

#[derive(Debug)]
pub struct FinishServerLoginResult {
    pub session_key: String,
}

/// The decoded input of the first step of a login on the server, as the
/// engine is given it. The record is absent exactly when the caller gave
/// none.
#[derive(Debug)]
pub struct ServerLoginStartInput {
    pub setup: Vec<u8>,
    pub record: Option<Vec<u8>>,
    pub request: Vec<u8>,
}

impl StartServerLoginResult {
    /// Whether the two texts encode the state and the response of `started`.
    pub open spec fn encodes(&self, started: ServerLoginStart) -> bool {
        &&& self.server_login_state@ == b64_text(started.state@)
        &&& self.login_response@ == b64_text(started.message@)
    }
}

/// A fresh server setup, as text: 128 bytes that the engine accepts as a
/// setup, so that no function of the server refuses it. It is to be stored
/// and given to every other function of the server.
pub fn create_server_setup() -> (r: String)
    ensures
        encodes_len(r@, SERVER_SETUP_LEN),
        server_setup_refusal(r@) is None,
{
    let setup = server_setup_new();
    base64_encode(setup.as_slice())
}

/// The check at which a server setup in text form is refused, if any.
pub open spec fn server_setup_refusal(data: Seq<char>) -> Option<(ErrorKind, Seq<char>)> {
    match b64_bytes(data) {
        None => Some((ErrorKind::Encoding, "serverSetup"@)),
        Some(setup) => if server_setup_parses(setup) {
            None
        } else {
            Some((ErrorKind::Protocol, "deserialize serverSetup"@))
        },
    }
}

/// Decodes a server setup and has the engine check it. Gives the bytes that
/// the text encodes if the engine accepts them.
pub fn decode_server_setup(data: &str) -> (r: Result<Vec<u8>, Error>)
    ensures
        match server_setup_refusal(data@) {
            Some((kind, context)) => r matches Err(e) && e.reports(kind, context),
            None => r matches Ok(setup) && Some(setup@) == b64_bytes(data@),
        },
{
    let setup = base64_decode("serverSetup", data)?;
    match check_server_setup(setup.as_slice()) {
        Ok(_) => Ok(setup),
        Err(error) => Err(from_protocol_error("deserialize serverSetup", &error)),
    }
}

/// The server's public key, as text, out of a setup in text form.
pub fn get_server_public_key(data: String) -> (r: Result<String, Error>)
    ensures
        match server_setup_refusal(data@) {
            Some((kind, context)) => r matches Err(e) && e.reports(kind, context),
            None => r matches Ok(key) && key@ == b64_text(
                server_public_key(b64_bytes(data@).unwrap()),
            ) && encodes_len(key@, PUBLIC_KEY_LEN),
        },
{
    let setup = decode_server_setup(data.as_str())?;
    match server_setup_public_key(setup.as_slice()) {
        Ok(key) => Ok(base64_encode(key.as_slice())),
        Err(error) => Err(from_protocol_error("deserialize serverSetup", &error)),
    }
}

/// What answering a registration request comes to: the bytes of the response,
/// or the kind and the context of the failure. The setup is checked first,
/// then the request; after that the engine decides.
pub open spec fn registration_response_for(
    params: CreateServerRegistrationResponseParams,
) -> Result<Seq<u8>, (ErrorKind, Seq<char>)> {
    let setup = b64_bytes(params.server_setup@);
    let request = b64_bytes(params.registration_request@);
    if let Some(refusal) = server_setup_refusal(params.server_setup@) {
        Err(refusal)
    } else if request is None {
        Err((ErrorKind::Encoding, "registrationRequest"@))
    } else if !registration_request_parses(request.unwrap()) {
        Err((ErrorKind::Protocol, "deserialize registrationRequest"@))
    } else {
        match registration_response(
            setup.unwrap(),
            request.unwrap(),
            encode_utf8(params.user_identifier@),
        ) {
            Some(response) => Ok(response),
            None => Err((ErrorKind::Protocol, "start server registration"@)),
        }
    }
}

/// Answers a registration request. The server keeps nothing between the
/// request and the response: the response is a function of the setup, the
/// user identifier and the request.
pub fn create_server_registration_response(params: CreateServerRegistrationResponseParams) -> (r:
    Result<CreateServerRegistrationResponseResult, Error>)
    ensures
        match registration_response_for(params) {
            Ok(response) => r matches Ok(result) && result.registration_response@ == b64_text(
                response,
            ) && encodes_len(result.registration_response@, REGISTRATION_RESPONSE_LEN),
            Err((kind, context)) => r matches Err(e) && e.reports(kind, context),
        },
{
    let setup = decode_server_setup(params.server_setup.as_str())?;
    let request = base64_decode("registrationRequest", params.registration_request.as_str())?;
    match check_registration_request(request.as_slice()) {
        Ok(_) => {},
        Err(error) => {
            return Err(from_protocol_error("deserialize registrationRequest", &error));
        },
    }
    match server_registration_start(
        setup.as_slice(),
        request.as_slice(),
        params.user_identifier.as_str().as_bytes(),
    ) {
        Ok(response) => Ok(
            CreateServerRegistrationResponseResult {
                registration_response: base64_encode(response.as_slice()),
            },
        ),
        Err(error) => Err(from_protocol_error("start server registration", &error)),
    }
}

/// The bytes of a registration record in text form; `None` where there is no
/// record, `Some(None)` where the text encodes nothing.
pub open spec fn record_bytes(record: Option<String>) -> Option<Option<Seq<u8>>> {
    match record {
        Some(text) => Some(b64_bytes(text@)),
        None => None,
    }
}

/// The check at which the input of the first step of a login is refused
/// before the engine is asked to start, if any: the setup first, then the
/// texts of the record and the request, then their bytes. An absent record
/// is never a reason.
pub open spec fn start_server_login_refusal(params: StartServerLoginParams) -> Option<
    (ErrorKind, Seq<char>),
> {
    let record = record_bytes(params.registration_record);
    let request = b64_bytes(params.start_login_request@);
    if let Some(refusal) = server_setup_refusal(params.server_setup@) {
        Some(refusal)
    } else if record == Some(None::<Seq<u8>>) {
        Some((ErrorKind::Encoding, "registrationRecord"@))
    } else if request is None {
        Some((ErrorKind::Encoding, "startLoginRequest"@))
    } else if record matches Some(Some(bytes)) && !registration_record_parses(bytes) {
        Some((ErrorKind::Protocol, "deserialize registrationRecord"@))
    } else if !credential_request_parses(request.unwrap()) {
        Some((ErrorKind::Protocol, "deserialize startLoginRequest"@))
    } else {
        None
    }
}

impl ServerLoginStartInput {
    /// The record's bytes, if there is a record.
    pub open spec fn record_view(&self) -> Option<Seq<u8>> {
        match self.record {
            Some(bytes) => Some(bytes@),
            None => None,
        }
    }
}

/// Validates and decodes the input of the first step of a login on the
/// server. Gives the error of the first check that fails, and otherwise what
/// the engine is to be given. With no record there is no check of a record,
/// and the engine is given none.
pub fn server_login_start_input(params: &StartServerLoginParams) -> (r: Result<
    ServerLoginStartInput,
    Error,
>)
    ensures
        match start_server_login_refusal(*params) {
            Some((kind, context)) => r matches Err(e) && e.reports(kind, context),
            None => r matches Ok(input) && Some(input.setup@) == b64_bytes(params.server_setup@)
                && Some(input.request@) == b64_bytes(params.start_login_request@) && (
            match params.registration_record {
                Some(text) => b64_bytes(text@) == input.record_view(),
                None => input.record is None,
            }),
        },
{
    let setup = decode_server_setup(params.server_setup.as_str())?;
    let record = match &params.registration_record {
        Some(text) => Some(base64_decode("registrationRecord", text.as_str())?),
        None => None,
    };
    let request = base64_decode("startLoginRequest", params.start_login_request.as_str())?;
    match &record {
        Some(bytes) => match check_registration_record(bytes.as_slice()) {
            Ok(_) => {},
            Err(error) => {
                return Err(from_protocol_error("deserialize registrationRecord", &error));
            },
        },
        None => {},
    }
    match check_credential_request(request.as_slice()) {
        Ok(_) => {},
        Err(error) => {
            return Err(from_protocol_error("deserialize startLoginRequest", &error));
        },
    }
    Ok(ServerLoginStartInput { setup, record, request })
}

/// Turns what the engine gave at the start of a login into the result: the
/// state and the response as text, or a protocol error.
pub fn server_login_started(outcome: Result<ServerLoginStart, ProtocolError>) -> (r: Result<
    StartServerLoginResult,
    Error,
>)
    ensures
        match outcome {
            Ok(started) => r matches Ok(result) && result.encodes(started),
            Err(_) => r matches Err(e) && e.reports(ErrorKind::Protocol, "start server login"@),
        },
{
    match outcome {
        Ok(started) => Ok(
            StartServerLoginResult {
                server_login_state: base64_encode(started.state.as_slice()),
                login_response: base64_encode(started.message.as_slice()),
            },
        ),
        Err(error) => Err(from_protocol_error("start server login", &error)),
    }
}

/// First step of a login on the server. Input that is refused before the
/// engine is asked to start gives the error of the first check that fails.
/// After that the engine answers with fresh randomness, whether or not there
/// is a record: the result is the state to keep, 192 bytes that the second
/// step accepts as a state, and the response to send, 320 bytes, both as
/// text, or a protocol error where the engine fails.
pub fn start_server_login(params: StartServerLoginParams) -> (r: Result<
    StartServerLoginResult,
    Error,
>)
    ensures
        match start_server_login_refusal(params) {
            Some((kind, context)) => r matches Err(e) && e.reports(kind, context),
            None => match r {
                Ok(result) => encodes_len(result.server_login_state@, SERVER_LOGIN_LEN)
                    && encodes_len(result.login_response@, CREDENTIAL_RESPONSE_LEN),
                Err(e) => e.reports(ErrorKind::Protocol, "start server login"@),
            },
        },
{
    let input = server_login_start_input(&params)?;
    let record: Option<&[u8]> = match &input.record {
        Some(bytes) => Some(bytes.as_slice()),
        None => None,
    };
    let outcome = server_login_start(
        input.setup.as_slice(),
        record,
        input.request.as_slice(),
        params.user_identifier.as_str().as_bytes(),
        get_identifiers(&params.identifiers),
    );
    proof {
        if let Ok(started) = &outcome {
            lemma_b64_round_trip(started.state@);
            lemma_b64_round_trip(started.message@);
        }
    }
    server_login_started(outcome)
}

/// What the second step of a login on the server comes to: the bytes of the
/// session key, or the kind and the context of the failure. The two texts are
/// checked first, then the two byte strings; after that the engine decides,
/// and a final message that does not authenticate is a protocol error.
pub open spec fn session_key_for(params: FinishServerLoginParams) -> Result<
    Seq<u8>,
    (ErrorKind, Seq<char>),
> {
    let finalization = b64_bytes(params.finish_login_request@);
    let state = b64_bytes(params.server_login_state@);
    if finalization is None {
        Err((ErrorKind::Encoding, "finishLoginRequest"@))
    } else if state is None {
        Err((ErrorKind::Encoding, "serverLoginState"@))
    } else if !server_login_parses(state.unwrap()) {
        Err((ErrorKind::Protocol, "deserialize serverLoginState"@))
    } else if !credential_finalization_parses(finalization.unwrap()) {
        Err((ErrorKind::Protocol, "deserialize finishLoginRequest"@))
    } else {
        match server_login_session_key(state.unwrap(), finalization.unwrap()) {
            Some(key) => Ok(key),
            None => Err((ErrorKind::Protocol, "finish server login"@)),
        }
    }
}

/// Second step of a login on the server: checks the client's final message
/// against the state and gives the session key as text.
pub fn finish_server_login(params: FinishServerLoginParams) -> (r: Result<
    FinishServerLoginResult,
    Error,
>)
    ensures
        match session_key_for(params) {
            Ok(key) => r matches Ok(result) && result.session_key@ == b64_text(key)
                && encodes_len(result.session_key@, HASH_LEN),
            Err((kind, context)) => r matches Err(e) && e.reports(kind, context),
        },
{
    let finalization = base64_decode("finishLoginRequest", params.finish_login_request.as_str())?;
    let state = base64_decode("serverLoginState", params.server_login_state.as_str())?;
    match check_server_login(state.as_slice()) {
        Ok(_) => {},
        Err(error) => {
            return Err(from_protocol_error("deserialize serverLoginState", &error));
        },
    }
    match check_credential_finalization(finalization.as_slice()) {
        Ok(_) => {},
        Err(error) => {
            return Err(from_protocol_error("deserialize finishLoginRequest", &error));
        },
    }
    match server_login_finish(state.as_slice(), finalization.as_slice()) {
        Ok(key) => Ok(FinishServerLoginResult { session_key: base64_encode(key.as_slice()) }),
        Err(error) => Err(from_protocol_error("finish server login", &error)),
    }
}

/// A login for a user without a record is refused for the setup or the
/// request alone: where the setup is accepted and the request decodes and
/// parses, the engine is asked for a response, as it is for a known user.
pub proof fn lemma_absent_record_is_no_reason(params: StartServerLoginParams)
    requires
        params.registration_record is None,
    ensures
        start_server_login_refusal(params) is None <==> {
            &&& server_setup_refusal(params.server_setup@) is None
            &&& b64_bytes(params.start_login_request@) is Some
            &&& credential_request_parses(b64_bytes(params.start_login_request@).unwrap())
        },
{
}

/// The second step of a login on the server gives a session key only where
/// both texts decode, both byte strings parse, and the engine, given exactly
/// these byte strings, authenticates the final message; the key is then the
/// engine's.
pub proof fn lemma_session_key_is_the_engines(params: FinishServerLoginParams, key: Seq<u8>)
    requires
        session_key_for(params) == Ok::<Seq<u8>, (ErrorKind, Seq<char>)>(key),
    ensures
        b64_bytes(params.server_login_state@) is Some,
        b64_bytes(params.finish_login_request@) is Some,
        server_login_parses(b64_bytes(params.server_login_state@).unwrap()),
        credential_finalization_parses(b64_bytes(params.finish_login_request@).unwrap()),
        server_login_session_key(
            b64_bytes(params.server_login_state@).unwrap(),
            b64_bytes(params.finish_login_request@).unwrap(),
        ) == Some(key),
{
}

/// Every failure of the second step of a login on the server is an encoding
/// error or a protocol error.
pub proof fn lemma_server_finish_failure_kinds(params: FinishServerLoginParams)
    ensures
        session_key_for(params) matches Err((kind, _)) ==> kind == ErrorKind::Encoding || kind
            == ErrorKind::Protocol,
{
}

} // verus!
